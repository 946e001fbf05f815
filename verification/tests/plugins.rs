use rs_vst_host::plugins::{
    choose_plugin, extension_source, find_lowered, find_plugin, is_bundle_extension, is_bundle_path,
    load_plugin_from_path, plugin_source, resolve_plugin, PluginChoice, PluginClassInfo,
    PluginModuleInfo, PluginSource, ScanCache,
};

fn class(name: &str, category: &str, id: u8) -> PluginClassInfo {
    PluginClassInfo {
        name: name.to_string(),
        category: category.to_string(),
        subcategories: None,
        vendor: None,
        cid: [id; 16],
    }
}

fn module(path: &str, classes: Vec<PluginClassInfo>) -> PluginModuleInfo {
    PluginModuleInfo {
        path: path.to_string(),
        factory_vendor: None,
        classes,
    }
}

fn cache() -> ScanCache {
    ScanCache {
        scan_timestamp: "now".to_string(),
        modules: vec![
            module("/vst3/Empty Synth.vst3", vec![]),
            module(
                "/vst3/Suite.vst3",
                vec![class("Big Reverb", "Audio Module Class", 1), class("Reverb", "Audio Module Class", 2)],
            ),
            module("/vst3/SuperSynth.vst3", vec![class("Ärger", "Audio Module Class", 3)]),
            module("/vst3/Other.vst3", vec![class("Suite Delay", "Audio Module Class", 4)]),
        ],
    }
}

fn choice(path: &str, name: &str, id: u8) -> Result<PluginChoice, String> {
    Ok(PluginChoice {
        path: path.to_string(),
        class_name: name.to_string(),
        cid: [id; 16],
    })
}

#[test]
fn a_plugin_is_found_by_a_part_of_its_name_whatever_the_case() {
    let cache = cache();
    for query in ["Delay", "delay", "DELAY", "suite del"] {
        assert_eq!(
            resolve_plugin(query, Some(&cache)),
            choice("/vst3/Other.vst3", "Suite Delay", 4)
        );
    }
    assert_eq!(resolve_plugin("äRGER", Some(&cache)), choice("/vst3/SuperSynth.vst3", "Ärger", 3));
}

#[test]
fn the_first_class_that_fits_is_taken() {
    let cache = cache();
    assert_eq!(
        resolve_plugin("reverb", Some(&cache)),
        choice("/vst3/Suite.vst3", "Big Reverb", 1)
    );
    assert_eq!(resolve_plugin("", Some(&cache)), choice("/vst3/Suite.vst3", "Big Reverb", 1));
}

#[test]
fn a_name_goes_before_a_stem() {
    let cache = cache();
    assert_eq!(
        resolve_plugin("suite", Some(&cache)),
        choice("/vst3/Other.vst3", "Suite Delay", 4)
    );
}

#[test]
fn a_stem_is_taken_where_no_name_fits_and_the_module_has_a_class() {
    let cache = cache();
    assert_eq!(
        resolve_plugin("SYNTH", Some(&cache)),
        choice("/vst3/SuperSynth.vst3", "Ärger", 3)
    );
}

#[test]
fn a_plugin_that_is_not_there_is_not_found() {
    assert_eq!(
        resolve_plugin("Nope", Some(&cache())),
        Err("Plugin 'Nope' not found. Run 'list' to see available plugins.".to_string())
    );
    assert_eq!(
        resolve_plugin("vst3", Some(&cache())),
        Err("Plugin 'vst3' not found. Run 'list' to see available plugins.".to_string())
    );
}

#[test]
fn without_a_cache_there_is_nothing_to_find() {
    assert_eq!(
        resolve_plugin("Reverb", None),
        Err("No plugin cache found. Run 'scan' first, or provide a .vst3 path.".to_string())
    );
}

#[test]
fn lowered_names_and_stems_are_searched() {
    let names = vec![vec!["abc".to_string()], vec!["xbcx".to_string(), "bc".to_string()], vec![]];
    let stems = vec!["one".to_string(), "two".to_string(), "three".to_string()];
    assert_eq!(find_lowered("bc", &names, &stems), Some((0, 0)));
    assert_eq!(find_lowered("xb", &names, &stems), Some((1, 0)));
    assert_eq!(find_lowered("wo", &names, &stems), Some((1, 0)));
    assert_eq!(find_lowered("three", &names, &stems), None);
    assert_eq!(find_lowered("abcd", &names, &stems), None);
    assert_eq!(find_lowered("", &[].to_vec(), &[].to_vec()), None);
}

#[test]
fn a_module_without_a_stem_is_found_by_an_empty_query_only() {
    let modules = vec![module("/", vec![class("Zed", "x", 9)])];
    assert_eq!(find_plugin("q", &modules, &vec![None]), None);
    assert_eq!(find_plugin("Q", &modules, &vec![Some("aQb".to_string())]), Some((0, 0)));
}

#[test]
fn every_class_is_found_by_its_own_name_or_an_earlier_one_is() {
    let cache = cache();
    for (m, module) in cache.modules.iter().enumerate() {
        for (c, class) in module.classes.iter().enumerate() {
            let stems = cache.modules.iter().map(|_| None).collect();
            let (fm, fc) = find_plugin(&class.name, &cache.modules, &stems).unwrap();
            assert!((fm, fc) <= (m, c));
        }
    }
}

#[test]
fn a_bundle_is_told_by_its_extension() {
    assert!(is_bundle_path("/vst3/Synth.vst3", true));
    assert!(!is_bundle_path("/vst3/Synth.vst3", false));
    assert!(!is_bundle_path("/vst3/Synth.VST3", true));
    assert!(!is_bundle_path("/vst3/Synth.vst3.txt", true));
    assert!(!is_bundle_path("/vst3/.vst3", true));
    assert!(!is_bundle_path("vst3", true));
    assert!(is_bundle_path("/p/A.vst3/", true));
    assert!(is_bundle_path("/p/A.vst3//", true));
    assert!(is_bundle_path("/p/A.vst3/.", true));
    assert!(is_bundle_path("..vst3", true));
    assert!(!is_bundle_path("/p/A.vst3/Contents/MacOS/A", true));
    assert!(!is_bundle_path("/p/A.vst3/..", true));
    assert!(!is_bundle_path("/p/A.vst3.", true));
    assert!(!is_bundle_path("/", true));
    assert!(!is_bundle_path("", true));
    assert!(is_bundle_extension(&Some("vst3".to_string())));
    assert!(!is_bundle_extension(&Some("vst".to_string())));
    assert!(!is_bundle_extension(&None));
}

#[test]
fn a_bundle_is_told_alike_on_every_platform() {
    for path in [
        "C:/VST3/A.vst3",
        "C:/VST3/A.vst3/",
        "C:A.vst3",
        "C:\\VST3\\A.vst3",
        "C:\\VST3/A.vst3/.",
        "a\\b.vst3",
        "a:b\\..vst3",
    ] {
        assert!(is_bundle_path(path, true), "{}", path);
        assert!(!is_bundle_path(path, false), "{}", path);
        assert_eq!(plugin_source(path, true), PluginSource::Bundle);
        assert_eq!(plugin_source(path, false), PluginSource::Cache);
    }
    for path in [
        "C:/VST3/A",
        "C:/A.vst3/x",
        "C:/A.vst3/..",
        "C:/.vst3",
        "A.vst3:b",
        "A.vst3\\b",
        "a\\b.VST3",
        "a\\b.vst3.txt",
    ] {
        assert!(!is_bundle_path(path, true), "{}", path);
        assert_eq!(plugin_source(path, true), PluginSource::Cache);
    }
}

#[test]
fn the_source_depends_on_the_extension_and_on_what_exists() {
    let vst3 = Some("vst3".to_string());
    assert_eq!(extension_source(&vst3, true), PluginSource::Bundle);
    assert_eq!(extension_source(&vst3, false), PluginSource::Cache);
    assert_eq!(extension_source(&Some("VST3".to_string()), true), PluginSource::Cache);
    assert_eq!(extension_source(&Some(String::new()), true), PluginSource::Cache);
    assert_eq!(extension_source(&None, true), PluginSource::Cache);
}

#[test]
fn stems_are_read_from_the_last_name_of_a_path() {
    for (path, stem) in [
        ("/p/Stem.vst3", "stem"),
        ("/p/Stem.vst3/", "stem"),
        ("/p/Stem.vst3/./", "stem"),
        ("C:/p/Stem.vst3", "stem"),
        ("C:\\p/Stem.vst3/", "stem"),
        ("Stem", "stem"),
        ("/p/.Stem", ".stem"),
        ("/p/Stem.", "stem"),
    ] {
        let modules = vec![module(path, vec![class("Zed", "x", 9)])];
        let cache = ScanCache { scan_timestamp: String::new(), modules };
        assert_eq!(resolve_plugin(stem, Some(&cache)), choice(path, "Zed", 9));
        assert!(resolve_plugin(&format!("{}.", stem), Some(&cache)).is_err());
    }
    for path in ["/", "", ".", "/p/..", "/p/Stem/.."] {
        let modules = vec![module(path, vec![class("Zed", "x", 9)])];
        let cache = ScanCache { scan_timestamp: String::new(), modules };
        assert!(resolve_plugin("stem", Some(&cache)).is_err());
    }
}

#[test]
fn a_bundle_that_exists_is_asked_itself_and_all_else_is_a_name() {
    let info = module("ignored", vec![class("Reverb", "Audio Module Class", 7)]);
    assert_eq!(plugin_source("/x/Reverb.vst3", true), PluginSource::Bundle);
    assert_eq!(plugin_source("/x/Reverb.vst3", false), PluginSource::Cache);
    assert_eq!(plugin_source("Reverb", true), PluginSource::Cache);
    let cache = cache();
    for cache in [None, Some(&cache)] {
        assert_eq!(
            choose_plugin("/x/Reverb.vst3", PluginSource::Bundle, Some(&info), cache),
            choice("/x/Reverb.vst3", "Reverb", 7)
        );
    }
    assert_eq!(
        choose_plugin("Delay", PluginSource::Cache, Some(&info), Some(&cache)),
        choice("/vst3/Other.vst3", "Suite Delay", 4)
    );
    assert!(choose_plugin("/x/Reverb.vst3", PluginSource::Cache, None, Some(&cache)).is_err());
    assert_eq!(
        choose_plugin("/x/Reverb.vst3", PluginSource::Cache, None, None),
        Err("No plugin cache found. Run 'scan' first, or provide a .vst3 path.".to_string())
    );
}

#[test]
fn an_audio_module_is_preferred() {
    let info = module(
        "ignored",
        vec![
            class("Controller", "Component Controller Class", 1),
            class("Synth", "Audio Module Class", 2),
            class("Other", "Audio Module Class", 3),
        ],
    );
    assert_eq!(load_plugin_from_path("/x.vst3", &info), choice("/x.vst3", "Synth", 2));
}

#[test]
fn any_class_will_do_where_there_is_no_audio_module() {
    let info = module("ignored", vec![class("First", "audio module class", 1), class("Second", "", 2)]);
    assert_eq!(load_plugin_from_path("/x.vst3", &info), choice("/x.vst3", "First", 1));
}

#[test]
fn a_bundle_without_classes_is_refused() {
    assert_eq!(
        load_plugin_from_path("/x.vst3", &module("ignored", vec![])),
        Err("No plugin classes found in /x.vst3".to_string())
    );
}
