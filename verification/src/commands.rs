//! What the commands that list or change something print.

use vstd::prelude::*;
use vstd::string::*;

use crate::plugins;
use crate::plugins::{PluginClassInfo, PluginModuleInfo, ScanCache};
use crate::text;
use crate::text::{push_if, push_right_aligned};

verus! {

/// A directory, as it is shown, and whether it exists.
#[derive(Debug, PartialEq, Eq)]
pub struct ShownPath {
    pub path: String,
    pub exists: bool,
}

/// An audio output device.
#[derive(Debug, PartialEq, Eq)]
pub struct OutputDevice {
    pub name: String,
    pub is_default: bool,
}

/// A MIDI input port.
#[derive(Debug, PartialEq, Eq)]
pub struct InputPort {
    pub index: usize,
    pub name: String,
}

/// Who made a class: who it names itself, or who made its module.
pub open spec fn vendor_of(class: PluginClassInfo, module: PluginModuleInfo) -> Seq<char> {
    match class.vendor {
        Some(vendor) => vendor@,
        None => match module.factory_vendor {
            Some(vendor) => vendor@,
            None => "Unknown"@,
        },
    }
}

/// The line that says what a class is.
pub open spec fn category_line(class: PluginClassInfo) -> Seq<char> {
    if class.subcategories matches Some(more) && more@.len() > 0 {
        "       Category: "@ + class.category@ + " | "@ + class.subcategories->Some_0@ + "\n"@
    } else {
        "       Category: "@ + class.category@ + "\n"@
    }
}

/// What a list shows of a class.
pub open spec fn listed_class(index: nat, class: PluginClassInfo, module: PluginModuleInfo) -> Seq<
    char,
> {
    "  "@ + text::right_aligned(text::digits(index), 3) + ". "@ + class.name@ + " ("@ + vendor_of(
        class,
        module,
    ) + ")\n"@ + category_line(class) + "       Path: "@ + module.path@ + "\n\n"@
}

/// What a list shows of the first classes of a module, which are numbered from `index` on.
pub open spec fn listed_classes(index: nat, module: PluginModuleInfo, n: nat) -> Seq<char>
    decreases n,
{
    if n == 0 {
        Seq::empty()
    } else {
        let last = (n - 1) as nat;
        listed_classes(index, module, last) + listed_class(
            index + last,
            module.classes@[last as int],
            module,
        )
    }
}

/// What a list shows of modules. The classes are numbered from one on, across the modules.
pub open spec fn listed_modules(modules: Seq<PluginModuleInfo>) -> Seq<char>
    decreases modules.len(),
{
    if modules.len() == 0 {
        Seq::empty()
    } else {
        listed_modules(modules.drop_last()) + listed_classes(
            plugins::class_count(modules.drop_last()) + 1,
            modules.last(),
            modules.last().classes@.len(),
        )
    }
}

/// What a list shows.
pub open spec fn list_text(cache: Option<ScanCache>) -> Seq<char> {
    match cache {
        None => "No plugin cache found. Run 'scan' first.\n"@,
        Some(cache) => "Cached plugins (scanned "@ + cache.scan_timestamp@ + "):\n\n"@
            + listed_modules(cache.modules@) + text::shown_if(
            plugins::class_count(cache.modules@) == 0,
            "  (no plugins found in cache)\n"@,
        ),
    }
}

fn push_vendor(out: &mut String, class: &PluginClassInfo, module: &PluginModuleInfo)
    ensures
        final(out)@ == old(out)@ + vendor_of(*class, *module),
{
    match &class.vendor {
        Some(vendor) => out.append(vendor.as_str()),
        None => match &module.factory_vendor {
            Some(vendor) => out.append(vendor.as_str()),
            None => out.append("Unknown"),
        },
    }
}

fn push_category_line(out: &mut String, class: &PluginClassInfo)
    ensures
        final(out)@ == old(out)@ + category_line(*class),
{
    out.append("       Category: ");
    out.append(class.category.as_str());
    match &class.subcategories {
        Some(more) => {
            if more.as_str().unicode_len() > 0 {
                out.append(" | ");
                out.append(more.as_str());
            }
        },
        None => {},
    }
    out.append("\n");
    assert(out@ =~= old(out)@ + category_line(*class));
}

fn push_listed_class(
    out: &mut String,
    index: u64,
    class: &PluginClassInfo,
    module: &PluginModuleInfo,
)
    ensures
        final(out)@ == old(out)@ + listed_class(index as nat, *class, *module),
{
    out.append("  ");
    push_right_aligned(out, index, 3);
    out.append(". ");
    out.append(class.name.as_str());
    out.append(" (");
    push_vendor(out, class, module);
    out.append(")\n");
    push_category_line(out, class);
    out.append("       Path: ");
    out.append(module.path.as_str());
    out.append("\n\n");
    assert(out@ =~= old(out)@ + listed_class(index as nat, *class, *module));
}

fn push_listed_classes(out: &mut String, index: u64, module: &PluginModuleInfo)
    requires
        index + module.classes@.len() <= u64::MAX,
    ensures
        final(out)@ == old(out)@ + listed_classes(index as nat, *module, module.classes@.len()),
{
    let mut n: usize = 0;
    while n < module.classes.len()
        invariant
            n <= module.classes@.len(),
            index + module.classes@.len() <= u64::MAX,
            out@ =~= old(out)@ + listed_classes(index as nat, *module, n as nat),
        decreases module.classes@.len() - n,
    {
        push_listed_class(out, index + n as u64, &module.classes[n], module);
        n = n + 1;
    }
}

/// Lists the plugins in the cache.
pub fn list(cache: Option<&ScanCache>) -> (text: String)
    requires
        cache matches Some(cache) ==> plugins::class_count(cache.modules@) < i32::MAX,
    ensures
        text@ == list_text(match cache {
            Some(cache) => Some(*cache),
            None => None,
        }),
{
    let cache: &ScanCache = match cache {
        Some(cache) => cache,
        None => {
            return String::from_str("No plugin cache found. Run 'scan' first.\n");
        },
    };
    let modules: &Vec<PluginModuleInfo> = &cache.modules;
    let mut out: String = String::from_str("Cached plugins (scanned ");
    out.append(cache.scan_timestamp.as_str());
    out.append("):\n\n");
    let ghost heading = out@;
    let mut index: u64 = 1;
    let mut i: usize = 0;
    assert(listed_modules(modules@.take(0)) =~= Seq::<char>::empty());
    while i < modules.len()
        invariant
            i <= modules@.len(),
            plugins::class_count(modules@) < i32::MAX,
            index == plugins::class_count(modules@.take(i as int)) + 1,
            out@ =~= heading + listed_modules(modules@.take(i as int)),
        decreases modules@.len() - i,
    {
        proof {
            assert(modules@.take(i + 1).drop_last() =~= modules@.take(i as int));
            plugins::lemma_class_count_grows(modules@, i + 1);
        }
        push_listed_classes(&mut out, index, &modules[i]);
        index = index + modules[i].classes.len() as u64;
        i = i + 1;
    }
    assert(modules@.take(i as int) =~= modules@);
    push_if(&mut out, index == 1, "  (no plugins found in cache)\n");
    out
}

/// What is shown of the first devices.
pub open spec fn device_lines(devices: Seq<OutputDevice>) -> Seq<char>
    decreases devices.len(),
{
    if devices.len() == 0 {
        Seq::empty()
    } else {
        device_lines(devices.drop_last()) + "  "@ + text::right_aligned(
            text::digits(devices.len()),
            3,
        ) + ". "@ + devices.last().name@ + text::shown_if(
            devices.last().is_default,
            " (default)"@,
        ) + "\n"@
    }
}

/// Lists the audio output devices.
pub fn devices(found: &Vec<OutputDevice>) -> (text: String)
    ensures
        text@ == (if found@.len() == 0 {
            "No audio output devices found.\n"@
        } else {
            "Audio output devices:\n\n"@ + device_lines(found@) + "\n"@
        }),
{
    if found.len() == 0 {
        return String::from_str("No audio output devices found.\n");
    }
    let mut out: String = String::from_str("Audio output devices:\n\n");
    let ghost heading = out@;
    let mut i: usize = 0;
    assert(device_lines(found@.take(0)) =~= Seq::<char>::empty());
    while i < found.len()
        invariant
            i <= found@.len(),
            out@ =~= heading + device_lines(found@.take(i as int)),
        decreases found@.len() - i,
    {
        assert(found@.take(i + 1).drop_last() =~= found@.take(i as int));
        out.append("  ");
        push_right_aligned(&mut out, i as u64 + 1, 3);
        out.append(". ");
        out.append(found[i].name.as_str());
        push_if(&mut out, found[i].is_default, " (default)");
        out.append("\n");
        i = i + 1;
    }
    assert(found@.take(i as int) =~= found@);
    out.append("\n");
    out
}

/// What is shown of MIDI input ports.
pub open spec fn port_lines(ports: Seq<InputPort>) -> Seq<char>
    decreases ports.len(),
{
    if ports.len() == 0 {
        Seq::empty()
    } else {
        port_lines(ports.drop_last()) + "  "@ + text::right_aligned(
            text::digits((ports.last().index + 1) as nat),
            3,
        ) + ". "@ + ports.last().name@ + "\n"@
    }
}

/// Lists the MIDI input ports.
pub fn midi_ports(ports: &Vec<InputPort>) -> (text: String)
    requires
        forall|i: int| 0 <= i < ports@.len() ==> (#[trigger] ports@[i]).index < usize::MAX,
    ensures
        text@ == (if ports@.len() == 0 {
            "No MIDI input ports found.\n"@
        } else {
            "MIDI input ports:\n\n"@ + port_lines(ports@) + "\n"@
        }),
{
    if ports.len() == 0 {
        return String::from_str("No MIDI input ports found.\n");
    }
    let mut out: String = String::from_str("MIDI input ports:\n\n");
    let ghost heading = out@;
    let mut i: usize = 0;
    assert(port_lines(ports@.take(0)) =~= Seq::<char>::empty());
    while i < ports.len()
        invariant
            i <= ports@.len(),
            forall|i: int| 0 <= i < ports@.len() ==> (#[trigger] ports@[i]).index < usize::MAX,
            out@ =~= heading + port_lines(ports@.take(i as int)),
        decreases ports@.len() - i,
    {
        assert(ports@.take(i + 1).drop_last() =~= ports@.take(i as int));
        out.append("  ");
        push_right_aligned(&mut out, (ports[i].index + 1) as u64, 3);
        out.append(". ");
        out.append(ports[i].name.as_str());
        out.append("\n");
        i = i + 1;
    }
    assert(ports@.take(i as int) =~= ports@);
    out.append("\n");
    out
}

/// Says whether a directory was added to the persistent ones.
pub fn scan_paths_add(dir: &str, added: bool) -> (text: String)
    ensures
        text@ == (if added {
            "Added '"@ + dir@
                + "' to persistent scan paths.\nRun 'scan' to discover plugins in this directory.\n"@
        } else {
            "'"@ + dir@ + "' is already in the persistent scan paths.\n"@
        }),
{
    if added {
        let mut out: String = String::from_str("Added '");
        out.append(dir);
        out.append(
            "' to persistent scan paths.\nRun 'scan' to discover plugins in this directory.\n",
        );
        out
    } else {
        let mut out: String = String::from_str("'");
        out.append(dir);
        out.append("' is already in the persistent scan paths.\n");
        out
    }
}

/// Says whether a directory was removed from the persistent ones.
pub fn scan_paths_remove(dir: &str, removed: bool) -> (text: String)
    ensures
        text@ == (if removed {
            "Removed '"@ + dir@
                + "' from persistent scan paths.\nRun 'scan' to update the plugin cache.\n"@
        } else {
            "'"@ + dir@ + "' was not in the persistent scan paths.\n"@
        }),
{
    if removed {
        let mut out: String = String::from_str("Removed '");
        out.append(dir);
        out.append("' from persistent scan paths.\nRun 'scan' to update the plugin cache.\n");
        out
    } else {
        let mut out: String = String::from_str("'");
        out.append(dir);
        out.append("' was not in the persistent scan paths.\n");
        out
    }
}

/// What is shown of persistent directories in their list.
pub open spec fn numbered_path_lines(paths: Seq<ShownPath>) -> Seq<char>
    decreases paths.len(),
{
    if paths.len() == 0 {
        Seq::empty()
    } else {
        numbered_path_lines(paths.drop_last()) + "  "@ + text::right_aligned(
            text::digits(paths.len()),
            3,
        ) + ". "@ + paths.last().path@ + text::shown_if(
            !paths.last().exists,
            " (not found)"@,
        ) + "\n"@
    }
}

/// Lists the persistent directories, and names the file that holds them where it is known.
pub fn scan_paths_list(paths: &Vec<ShownPath>, config_path: Option<&str>) -> (text: String)
    ensures
        text@ == (if paths@.len() == 0 {
            "No persistent scan paths configured.\n\nAdd one with: rs-vst-host scan-paths add <DIR>\n"@
        } else {
            "Persistent scan paths:\n\n"@ + numbered_path_lines(paths@) + "\n"@ + (
            match config_path {
                Some(file) => "Config file: "@ + file@ + "\n"@,
                None => Seq::empty(),
            })
        }),
{
    if paths.len() == 0 {
        return String::from_str(
            "No persistent scan paths configured.\n\nAdd one with: rs-vst-host scan-paths add <DIR>\n",
        );
    }
    let mut out: String = String::from_str("Persistent scan paths:\n\n");
    let ghost heading = out@;
    let mut i: usize = 0;
    assert(numbered_path_lines(paths@.take(0)) =~= Seq::<char>::empty());
    while i < paths.len()
        invariant
            i <= paths@.len(),
            out@ =~= heading + numbered_path_lines(paths@.take(i as int)),
        decreases paths@.len() - i,
    {
        assert(paths@.take(i + 1).drop_last() =~= paths@.take(i as int));
        out.append("  ");
        push_right_aligned(&mut out, i as u64 + 1, 3);
        out.append(". ");
        out.append(paths[i].path.as_str());
        push_if(&mut out, !paths[i].exists, " (not found)");
        out.append("\n");
        i = i + 1;
    }
    assert(paths@.take(i as int) =~= paths@);
    out.append("\n");
    let ghost listed = out@;
    match config_path {
        Some(file) => {
            out.append("Config file: ");
            out.append(file);
            out.append("\n");
            assert(out@ =~= listed + ("Config file: "@ + file@ + "\n"@));
        },
        None => {
            assert(out@ =~= listed + Seq::<char>::empty());
        },
    }
    out
}

/// What a list shows of a class: its number, its name and its maker in a line, then what it is,
/// then where its module lies. The maker is the one that the class names, or else that of its
/// module, or else unknown. Subcategories are shown where there are any.
pub proof fn lemma_listed_class(index: nat, class: PluginClassInfo, module: PluginModuleInfo)
    ensures
        ({
            let vendor = if class.vendor is Some {
                class.vendor->Some_0@
            } else if module.factory_vendor is Some {
                module.factory_vendor->Some_0@
            } else {
                "Unknown"@
            };
            let more = match class.subcategories {
                Some(more) => if more@.len() == 0 {
                    Seq::empty()
                } else {
                    " | "@ + more@
                },
                None => Seq::empty(),
            };
            listed_class(index, class, module) == "  "@ + text::right_aligned(
                text::digits(index),
                3,
            ) + ". "@ + class.name@ + " ("@ + vendor + ")\n"@ + "       Category: "@ + class.category@
                + more + "\n"@ + "       Path: "@ + module.path@ + "\n\n"@
        }),
{
    let more = match class.subcategories {
        Some(more) => if more@.len() == 0 {
            Seq::empty()
        } else {
            " | "@ + more@
        },
        None => Seq::empty(),
    };
    assert(category_line(class) =~= "       Category: "@ + class.category@ + more + "\n"@);
    assert(listed_class(index, class, module) =~= "  "@ + text::right_aligned(
        text::digits(index),
        3,
    ) + ". "@ + class.name@ + " ("@ + vendor_of(class, module) + ")\n"@ + "       Category: "@
        + class.category@ + more + "\n"@ + "       Path: "@ + module.path@ + "\n\n"@);
}

proof fn lemma_listed_classes(index: nat, module: PluginModuleInfo, n: nat)
    requires
        n <= module.classes@.len(),
    ensures
        listed_classes(index, module, n) == Seq::new(
            n,
            |k: int| listed_class((index + k) as nat, module.classes@[k], module),
        ).flatten(),
    decreases n,
{
    let entry = |k: int| listed_class((index + k) as nat, module.classes@[k], module);
    if n > 0 {
        lemma_listed_classes(index, module, (n - 1) as nat);
        text::lemma_joined(entry, (n - 1) as nat);
    } else {
        text::lemma_joined(entry, 0);
    }
}

/// The classes of modules, each with its module: those of the first module first.
pub open spec fn all_classes(modules: Seq<PluginModuleInfo>) -> Seq<
    (PluginModuleInfo, PluginClassInfo),
> {
    modules.map_values(
        |module: PluginModuleInfo|
            module.classes@.map_values(|class: PluginClassInfo| (module, class)),
    ).flatten()
}

/// A list shows every class of every module once, in order and numbered from one on, and nothing
/// but them.
pub proof fn lemma_list_complete(modules: Seq<PluginModuleInfo>)
    ensures
        all_classes(modules).len() == plugins::class_count(modules),
        listed_modules(modules) == Seq::new(
            all_classes(modules).len(),
            |k: int|
                listed_class((k + 1) as nat, all_classes(modules)[k].1, all_classes(modules)[k].0),
        ).flatten(),
    decreases modules.len(),
{
    let of_module = |module: PluginModuleInfo|
        module.classes@.map_values(|class: PluginClassInfo| (module, class));
    let all = all_classes(modules);
    let entry = |k: int| listed_class((k + 1) as nat, all[k].1, all[k].0);
    if modules.len() > 0 {
        let before = modules.drop_last();
        let last = modules.last();
        lemma_list_complete(before);
        assert(modules.map_values(of_module) =~= before.map_values(of_module).push(
            of_module(last),
        ));
        before.map_values(of_module).lemma_flatten_push(of_module(last));
        assert(all =~= all_classes(before) + of_module(last));
        let count = plugins::class_count(before);
        let n = last.classes@.len();
        lemma_listed_classes(count + 1, last, n);
        let first = Seq::new(count, entry);
        let rest = Seq::new(
            n,
            |k: int| listed_class((count + 1 + k) as nat, last.classes@[k], last),
        );
        assert(first =~= Seq::new(
            count,
            |k: int|
                listed_class((k + 1) as nat, all_classes(before)[k].1, all_classes(before)[k].0),
        ));
        assert(Seq::new(all.len(), entry) =~= first + rest);
        vstd::seq_lib::lemma_flatten_concat(first, rest);
    } else {
        text::lemma_joined(entry, 0);
    }
}

/// Every device has its line, numbered from one on in order, and the default one is marked.
pub proof fn lemma_devices_complete(devices: Seq<OutputDevice>)
    ensures
        device_lines(devices) == Seq::new(
            devices.len(),
            |k: int|
                "  "@ + text::right_aligned(text::digits((k + 1) as nat), 3) + ". "@
                    + devices[k].name@ + (if devices[k].is_default {
                    " (default)"@
                } else {
                    Seq::empty()
                }) + "\n"@,
        ).flatten(),
    decreases devices.len(),
{
    let line = |k: int|
        "  "@ + text::right_aligned(text::digits((k + 1) as nat), 3) + ". "@ + devices[k].name@ + (
        if devices[k].is_default {
            " (default)"@
        } else {
            Seq::empty()
        }) + "\n"@;
    if devices.len() > 0 {
        let before = devices.drop_last();
        let n = before.len();
        lemma_devices_complete(before);
        text::lemma_joined(line, n);
        assert(Seq::new(n, line) =~= Seq::new(
            n,
            |k: int|
                "  "@ + text::right_aligned(text::digits((k + 1) as nat), 3) + ". "@
                    + before[k].name@ + (if before[k].is_default {
                    " (default)"@
                } else {
                    Seq::empty()
                }) + "\n"@,
        ));
        assert(device_lines(devices) =~= device_lines(before) + line(n as int));
    } else {
        text::lemma_joined(line, 0);
    }
}

/// Every port has its line, in order, under the number that is one more than its index.
pub proof fn lemma_ports_complete(ports: Seq<InputPort>)
    ensures
        port_lines(ports) == Seq::new(
            ports.len(),
            |k: int|
                "  "@ + text::right_aligned(text::digits((ports[k].index + 1) as nat), 3) + ". "@
                    + ports[k].name@ + "\n"@,
        ).flatten(),
    decreases ports.len(),
{
    let line = |k: int|
        "  "@ + text::right_aligned(text::digits((ports[k].index + 1) as nat), 3) + ". "@
            + ports[k].name@ + "\n"@;
    if ports.len() > 0 {
        let before = ports.drop_last();
        let n = before.len();
        lemma_ports_complete(before);
        text::lemma_joined(line, n);
        assert(Seq::new(n, line) =~= Seq::new(
            n,
            |k: int|
                "  "@ + text::right_aligned(text::digits((before[k].index + 1) as nat), 3) + ". "@
                    + before[k].name@ + "\n"@,
        ));
        assert(port_lines(ports) =~= port_lines(before) + line(n as int));
    } else {
        text::lemma_joined(line, 0);
    }
}

/// Every persistent directory has its line, numbered from one on in order, and one that does not
/// exist is marked.
pub proof fn lemma_paths_complete(paths: Seq<ShownPath>)
    ensures
        numbered_path_lines(paths) == Seq::new(
            paths.len(),
            |k: int|
                "  "@ + text::right_aligned(text::digits((k + 1) as nat), 3) + ". "@
                    + paths[k].path@ + (if paths[k].exists {
                    Seq::empty()
                } else {
                    " (not found)"@
                }) + "\n"@,
        ).flatten(),
    decreases paths.len(),
{
    let line = |k: int|
        "  "@ + text::right_aligned(text::digits((k + 1) as nat), 3) + ". "@ + paths[k].path@ + (
        if paths[k].exists {
            Seq::empty()
        } else {
            " (not found)"@
        }) + "\n"@;
    if paths.len() > 0 {
        let before = paths.drop_last();
        let n = before.len();
        lemma_paths_complete(before);
        text::lemma_joined(line, n);
        assert(Seq::new(n, line) =~= Seq::new(
            n,
            |k: int|
                "  "@ + text::right_aligned(text::digits((k + 1) as nat), 3) + ". "@
                    + before[k].path@ + (if before[k].exists {
                    Seq::empty()
                } else {
                    " (not found)"@
                }) + "\n"@,
        ));
        assert(numbered_path_lines(paths) =~= numbered_path_lines(before) + line(n as int));
    } else {
        text::lemma_joined(line, 0);
    }
}

/// What a list shows in all: without a cache, that there is none; with one, when it was made, then
/// every class of it, and a remark where it holds none.
pub proof fn lemma_list_text(cache: Option<ScanCache>)
    ensures
        cache is None ==> list_text(cache) == "No plugin cache found. Run 'scan' first.\n"@,
        cache matches Some(c) ==> {
            let heading = "Cached plugins (scanned "@ + c.scan_timestamp@ + "):\n\n"@;
            let all = all_classes(c.modules@);
            &&& all.len() == 0 ==> list_text(cache) == heading
                + "  (no plugins found in cache)\n"@
            &&& all.len() > 0 ==> list_text(cache) == heading + Seq::new(
                all.len(),
                |k: int| listed_class((k + 1) as nat, all[k].1, all[k].0),
            ).flatten()
        },
{
    if let Some(c) = cache {
        let heading = "Cached plugins (scanned "@ + c.scan_timestamp@ + "):\n\n"@;
        let all = all_classes(c.modules@);
        let entry = |k: int| listed_class((k + 1) as nat, all[k].1, all[k].0);
        lemma_list_complete(c.modules@);
        if all.len() == 0 {
            text::lemma_joined(entry, 0);
            assert(list_text(cache) =~= heading + "  (no plugins found in cache)\n"@);
        } else {
            assert(list_text(cache) =~= heading + Seq::new(all.len(), entry).flatten());
        }
    }
}

} // verus!
