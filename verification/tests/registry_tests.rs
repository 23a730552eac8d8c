use keystone::error::ErrorKind;
use keystone::guid::GUID;
use keystone::instance::InstanceState;
use keystone::plugin::{ClassInfo, ModuleCall, Plugin, PluginInfo};
use keystone::registry::{Candidate, Registry, Scan, ScanReply, ScanStage, ScanStep};
use keystone::strmap::StrMap;

const SYNTH: &str = "3C2A31A836CE1F5088C9096932F9A0EA";
const OTHER: &str = "0E19FC23DD029944A8D2230E50617DA3";

fn class(name: &str, cid: &str) -> ClassInfo {
    ClassInfo {
        name: name.to_string(),
        category: "Audio Module Class".to_string(),
        cardinality: 0x7FFFFFFF,
        cid: GUID::from_string(cid),
    }
}

fn info(path: &str, file_time: i64, classes: Vec<ClassInfo>) -> PluginInfo {
    PluginInfo {
        id: keystone::plugin::get_identifier_from_path(path),
        path: path.to_string(),
        classes,
        file_time,
    }
}

fn cache() -> StrMap<PluginInfo> {
    let mut cache = StrMap::new();
    let mega = info("C:/VST3/Mega.vst3", 100, vec![class("Mega", SYNTH)]);
    cache.insert(mega.id.clone(), mega);
    let check = info("C:/VST3/Check.vst3", 200, vec![class("Check", OTHER)]);
    cache.insert(check.id.clone(), check);
    cache
}

fn registry() -> Registry {
    let mut registry = Registry::new();
    registry.init(cache());
    registry
}

fn loaded_plugin(path: &str, exit_fn: bool) -> Plugin {
    Plugin::new(path, 100, exit_fn, vec![class("Mega", SYNTH)])
}

fn candidates(list: &[(&str, i64)]) -> Vec<Candidate> {
    list.iter().map(|(p, t)| Candidate { path: p.to_string(), file_time: *t }).collect()
}

fn cache_text(cache: &StrMap<PluginInfo>) -> String {
    keystone::cache::render_cache(cache, "then")
}

struct ScanLog {
    probes: Vec<String>,
    writes: Vec<String>,
}

fn run_scan(scan: &mut Scan, available: &[PluginInfo]) -> ScanLog {
    let mut log = ScanLog { probes: Vec::new(), writes: Vec::new() };
    let mut reply = ScanReply::Begin;
    loop {
        match scan.resume(reply) {
            ScanStep::Probe(path) => {
                let found = available.iter().find(|p| p.path == path).map(|p| p.duplicate());
                log.probes.push(path);
                reply = ScanReply::Probed(found);
            }
            ScanStep::Write(text) => {
                log.writes.push(text);
                reply = ScanReply::Written;
            }
            ScanStep::Done => break,
        }
    }
    log
}

#[test]
fn init_files_every_class_under_its_identifier() {
    let registry = registry();
    let entry = registry.get_class(SYNTH).unwrap();
    assert_eq!(entry.plugin_info.id, "c_vst3_mega_vst3");
    assert_eq!(entry.class_info.name, "Mega");
    let other = registry.get_class(OTHER).unwrap();
    assert_eq!(other.plugin_info.path, "C:/VST3/Check.vst3");
}

#[test]
fn init_later_class_replaces_earlier_under_same_identifier() {
    let mut cache = StrMap::new();
    let a = info("a.vst3", 1, vec![class("First", SYNTH)]);
    cache.insert(a.id.clone(), a);
    let b = info("b.vst3", 1, vec![class("Second", SYNTH)]);
    cache.insert(b.id.clone(), b);
    let mut registry = Registry::new();
    registry.init(cache);
    assert_eq!(registry.get_class(SYNTH).unwrap().class_info.name, "Second");
}

#[test]
fn unknown_class_is_invalid_identifier_and_takes_no_reference() {
    let mut registry = registry();
    let e = registry.create_class_instance("FFFFFFFFFFFFFFFFFFFFFFFFFFFFFFFF").err().unwrap();
    assert_eq!(e.kind(), ErrorKind::InvalidIdentifier);
    assert_eq!(e.message(), "failed to create class instance");
    assert!(!registry.is_loaded("c_vst3_mega_vst3"));
    assert_eq!(registry.ref_counter("c_vst3_mega_vst3"), 0);
    assert_eq!(registry.get_class("").err().unwrap().kind(), ErrorKind::InvalidIdentifier);
}

#[test]
fn first_instance_asks_for_the_plugin_to_be_loaded() {
    let mut registry = registry();
    let request = registry.create_class_instance(SYNTH).unwrap();
    assert_eq!(request.plugin_id, "c_vst3_mega_vst3");
    assert_eq!(request.cid.to_string(), SYNTH);
    assert_eq!(request.load.as_deref(), Some("C:/VST3/Mega.vst3"));
    assert_eq!(registry.ref_counter("c_vst3_mega_vst3"), 0);
    registry.add_plugin(&request.plugin_id, loaded_plugin("C:/VST3/Mega.vst3", true));
    assert_eq!(registry.ref_counter("c_vst3_mega_vst3"), 1);
    let instance = registry.finish_class_instance(&request, SYNTH, 0, true, true).ok().unwrap();
    assert_eq!(instance.class_id(), SYNTH);
    assert_eq!(instance.get_plugin(), "c_vst3_mega_vst3");
    assert_eq!(instance.state(), InstanceState::Created);
    assert_eq!(registry.ref_counter("c_vst3_mega_vst3"), 1);
}

#[test]
fn create_then_release_restores_reference_count() {
    let mut registry = registry();
    let first = registry.create_class_instance(SYNTH).unwrap();
    registry.add_plugin(&first.plugin_id, loaded_plugin("C:/VST3/Mega.vst3", true));
    let one = registry.finish_class_instance(&first, SYNTH, 0, true, true).ok().unwrap();
    let before = registry.ref_counter("c_vst3_mega_vst3");
    assert_eq!(before, 1);

    let second = registry.create_class_instance(SYNTH).unwrap();
    assert!(second.load.is_none());
    assert_eq!(registry.ref_counter("c_vst3_mega_vst3"), 2);
    let two = registry.finish_class_instance(&second, SYNTH, 0, true, true).ok().unwrap();
    let calls = registry.unref_class_instance(two).unwrap();
    assert!(calls.is_empty());
    assert_eq!(registry.ref_counter("c_vst3_mega_vst3"), before);
    assert!(registry.is_loaded("c_vst3_mega_vst3"));

    let calls = registry.unref_class_instance(one).unwrap();
    assert_eq!(
        calls,
        vec![ModuleCall::ReleaseFactory, ModuleCall::CallExit, ModuleCall::CloseLibrary]
    );
    assert_eq!(registry.ref_counter("c_vst3_mega_vst3"), 0);
    assert!(!registry.is_loaded("c_vst3_mega_vst3"));
}

#[test]
fn failed_creation_gives_the_reference_back() {
    let mut registry = registry();
    let request = registry.create_class_instance(SYNTH).unwrap();
    registry.add_plugin(&request.plugin_id, loaded_plugin("C:/VST3/Mega.vst3", false));
    let (e, calls) = registry.finish_class_instance(&request, SYNTH, 1, false, false).err().unwrap();
    assert_eq!(e.kind(), ErrorKind::CreationFailed);
    assert_eq!(calls, vec![ModuleCall::ReleaseFactory, ModuleCall::CloseLibrary]);
    assert!(!registry.is_loaded("c_vst3_mega_vst3"));
}

#[test]
fn object_without_component_capability_is_not_supported() {
    let mut registry = registry();
    let first = registry.create_class_instance(SYNTH).unwrap();
    registry.add_plugin(&first.plugin_id, loaded_plugin("C:/VST3/Mega.vst3", false));
    let _kept = registry.finish_class_instance(&first, SYNTH, 0, true, true).ok().unwrap();
    let second = registry.create_class_instance(SYNTH).unwrap();
    let (e, calls) = registry.finish_class_instance(&second, SYNTH, 0, true, false).err().unwrap();
    assert_eq!(e.kind(), ErrorKind::InterfaceNotSupported);
    assert!(calls.is_empty());
    assert_eq!(registry.ref_counter("c_vst3_mega_vst3"), 1);
}

#[test]
fn null_object_with_success_status_is_creation_failure() {
    let mut registry = registry();
    let request = registry.create_class_instance(SYNTH).unwrap();
    registry.add_plugin(&request.plugin_id, loaded_plugin("C:/VST3/Mega.vst3", false));
    let (e, _) = registry.finish_class_instance(&request, SYNTH, 0, false, false).err().unwrap();
    assert_eq!(e.kind(), ErrorKind::CreationFailed);
}

#[test]
fn unref_of_unknown_plugin_changes_nothing() {
    let mut registry = registry();
    assert!(registry.unref_plugin("nothing").is_empty());
    assert_eq!(registry.ref_plugin("nothing").err().unwrap().kind(), ErrorKind::InvalidIdentifier);
}

#[test]
fn dispose_forgets_everything() {
    let mut registry = registry();
    registry.dispose();
    assert_eq!(registry.get_class(SYNTH).err().unwrap().kind(), ErrorKind::InvalidIdentifier);
    assert_eq!(registry.ref_plugin("c_vst3_mega_vst3").err().unwrap().kind(), ErrorKind::InvalidIdentifier);
}

#[test]
fn scan_of_empty_cache_probes_every_candidate() {
    let available = vec![
        info("C:/VST3/Mega.vst3", 100, vec![class("Mega", SYNTH)]),
        info("C:/VST3/Check.vst3", 200, vec![class("Check", OTHER)]),
    ];
    let mut scan = Scan::new(None, candidates(&[("C:/VST3/Mega.vst3", 100), ("C:/VST3/Check.vst3", 200)]));
    let log = run_scan(&mut scan, &available);
    assert_eq!(log.probes, vec!["C:/VST3/Mega.vst3", "C:/VST3/Check.vst3"]);
    assert_eq!(log.writes.len(), 2);
    assert!(scan.is_finished());
    let cache = scan.into_cache();
    assert_eq!(cache.len(), 2);
    assert_eq!(cache.get("c_vst3_mega_vst3").unwrap().classes[0].name, "Mega");
}

#[test]
fn scan_of_unchanged_plugins_loads_and_writes_nothing() {
    let old = cache();
    let text = cache_text(&old);
    let mut scan = Scan::new(
        Some(&text),
        candidates(&[("C:/VST3/Mega.vst3", 100), ("C:/VST3/Check.vst3", 200)]),
    );
    let log = run_scan(&mut scan, &[]);
    assert!(log.probes.is_empty());
    assert!(log.writes.is_empty());
    let again = scan.into_cache();
    assert_eq!(again.len(), 2);
    let rendered = keystone::cache::render_cache(&again, "then");
    let mut expected: Vec<&str> = text.lines().collect();
    let mut actual: Vec<&str> = rendered.lines().collect();
    expected.sort();
    actual.sort();
    assert_eq!(actual, expected);
}

#[test]
fn scan_twice_second_run_loads_nothing() {
    let available = vec![info("C:/VST3/Mega.vst3", 100, vec![class("Mega", SYNTH)])];
    let list = [("C:/VST3/Mega.vst3", 100)];
    let mut first = Scan::new(None, candidates(&list));
    let log = run_scan(&mut first, &available);
    assert_eq!(log.probes.len(), 1);
    let written = log.writes.last().unwrap().clone();
    let mut second = Scan::new(Some(&written), candidates(&list));
    let log = run_scan(&mut second, &available);
    assert!(log.probes.is_empty());
    assert!(log.writes.is_empty());
    assert_eq!(second.into_cache().get("c_vst3_mega_vst3").unwrap().file_time, 100);
}

#[test]
fn scan_reloads_changed_plugin_and_writes_at_once() {
    let text = cache_text(&cache());
    let available = vec![info("C:/VST3/Mega.vst3", 101, vec![class("Mega 2", SYNTH)])];
    let mut scan = Scan::new(
        Some(&text),
        candidates(&[("C:/VST3/Mega.vst3", 101), ("C:/VST3/Check.vst3", 200)]),
    );
    let log = run_scan(&mut scan, &available);
    assert_eq!(log.probes, vec!["C:/VST3/Mega.vst3"]);
    assert_eq!(log.writes.len(), 1);
    assert!(log.writes[0].starts_with("[cache]\ntimestamp = \""));
    assert!(log.writes[0].contains("[c_vst3_mega_vst3]\npath = \"C:/VST3/Mega.vst3\"\nfile_time = 101\n"));
    assert!(!log.writes[0].contains("c_vst3_check_vst3"));
    let cache = scan.into_cache();
    assert_eq!(cache.get("c_vst3_mega_vst3").unwrap().classes[0].name, "Mega 2");
    assert_eq!(cache.get("c_vst3_check_vst3").unwrap().file_time, 200);
}

#[test]
fn scan_omits_plugin_that_fails_to_load() {
    let mut scan = Scan::new(None, candidates(&[("C:/VST3/Broken.vst3", 5)]));
    let log = run_scan(&mut scan, &[]);
    assert_eq!(log.probes.len(), 1);
    assert_eq!(log.writes.len(), 1);
    assert_eq!(scan.into_cache().len(), 0);
}

#[test]
fn scan_passes_over_files_without_time() {
    let mut scan = Scan::new(None, candidates(&[("C:/VST3/Gone.vst3", 0)]));
    let log = run_scan(&mut scan, &[]);
    assert!(log.probes.is_empty());
    assert!(log.writes.is_empty());
}

#[test]
fn scan_writes_once_more_when_plugins_vanished() {
    let text = cache_text(&cache());
    let mut scan = Scan::new(Some(&text), candidates(&[("C:/VST3/Mega.vst3", 100)]));
    let log = run_scan(&mut scan, &[]);
    assert!(log.probes.is_empty());
    assert_eq!(log.writes.len(), 1);
    assert!(!log.writes[0].contains("c_vst3_check_vst3"));
    assert_eq!(scan.into_cache().len(), 1);
}

#[test]
fn scan_treats_unreadable_cache_as_empty() {
    let mut scan = Scan::new(Some("not a cache"), candidates(&[("C:/VST3/Mega.vst3", 100)]));
    assert!(matches!(scan.resume(ScanReply::Begin), ScanStep::Probe(_)));
    assert_eq!(scan.stage, ScanStage::Probing);
}

#[test]
fn scan_ends_on_reply_out_of_turn() {
    let mut scan = Scan::new(None, candidates(&[("C:/VST3/Mega.vst3", 100)]));
    assert!(matches!(scan.resume(ScanReply::Written), ScanStep::Done));
    assert!(scan.is_finished());
}

#[test]
fn scan_write_cache_carries_a_timestamp() {
    let scan = Scan::new(None, Vec::new());
    let text = scan.write_cache();
    assert!(text.starts_with("[cache]\ntimestamp = \""));
    assert!(text.ends_with("\"\n\n"));
    assert!(text.len() > "[cache]\ntimestamp = \"\"\n\n".len());
    assert!(keystone::cache::read_cache(&text).is_ok());
}

#[test]
fn plugin_files_are_told_by_extension() {
    assert!(Registry::is_plugin_file("C:/VST3/Mega.vst3"));
    assert!(Registry::is_plugin_file("C:/VST3/Mega.VST3"));
    assert!(Registry::is_plugin_file("Mega.tar.Vst3"));
    assert!(!Registry::is_plugin_file("C:/VST3/Mega.dll"));
    assert!(!Registry::is_plugin_file("C:/VST3/vst3"));
    assert!(!Registry::is_plugin_file(".vst3"));
    assert!(!Registry::is_plugin_file("C:/VST3.vst3/readme"));
    assert!(!Registry::is_plugin_file(""));
}

#[test]
fn find_libraries_skips_unreadable_directories() {
    let dirs = vec![
        Some(vec!["a/one.vst3".to_string(), "a/readme.txt".to_string()]),
        None,
        Some(vec!["c/two.VST3".to_string()]),
    ];
    assert_eq!(Registry::find_libraries(&dirs).unwrap(), vec!["a/one.vst3", "c/two.VST3"]);
    let mut list = vec!["kept".to_string()];
    let e = Registry::find_libraries_in_path(None, &mut list).unwrap_err();
    assert_eq!(e.kind(), ErrorKind::IOError);
    assert_eq!(list, vec!["kept"]);
}
