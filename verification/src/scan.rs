//! A scan for plugins: where it looks, what it keeps, and what it prints on the way.

use vstd::prelude::*;
use vstd::string::*;

use crate::commands;
use crate::commands::ShownPath;
use crate::plugins;
use crate::plugins::{path_stem, total_classes, PluginClassInfo, PluginModuleInfo};
use crate::text;
use crate::text::{push_digits, push_if};

verus! {

/// The directories to search: the explicit ones alone where there are any; otherwise the default
/// ones and behind them the persistent ones.
pub fn search_paths<T>(explicit: Vec<T>, defaults: Vec<T>, persistent: Vec<T>) -> (paths: Vec<T>)
    ensures
        paths@ == (if explicit@.len() > 0 {
            explicit@
        } else {
            defaults@ + persistent@
        }),
{
    if explicit.len() > 0 {
        return explicit;
    }
    let mut paths: Vec<T> = defaults;
    let mut more: Vec<T> = persistent;
    paths.append(&mut more);
    paths
}

/// What is shown of persistent directories before a search.
pub open spec fn persistent_lines(paths: Seq<ShownPath>) -> Seq<char>
    decreases paths.len(),
{
    if paths.len() == 0 {
        Seq::empty()
    } else {
        persistent_lines(paths.drop_last()) + "  + "@ + paths.last().path@ + "\n"@
    }
}

/// What is shown of the directories of a search.
pub open spec fn search_lines(paths: Seq<ShownPath>) -> Seq<char>
    decreases paths.len(),
{
    if paths.len() == 0 {
        Seq::empty()
    } else {
        search_lines(paths.drop_last()) + "  "@ + paths.last().path@ + text::shown_if(
            !paths.last().exists,
            " (not found)"@,
        ) + "\n"@
    }
}

/// What a scan says about where it looks.
pub open spec fn scan_heading_text(
    is_explicit: bool,
    persistent: Seq<ShownPath>,
    paths: Seq<ShownPath>,
) -> Seq<char> {
    "Scanning for VST3 plugins...\n\n"@ + (if is_explicit {
        "Using only explicitly provided paths (defaults excluded).\n\n"@
    } else if persistent.len() > 0 {
        "Persistent scan paths (from config):\n"@ + persistent_lines(persistent) + "\n"@
    } else {
        Seq::empty()
    }) + "Search paths:\n"@ + search_lines(paths) + "\n"@
}

fn push_persistent_lines(out: &mut String, paths: &Vec<ShownPath>)
    ensures
        final(out)@ == old(out)@ + persistent_lines(paths@),
{
    let mut i: usize = 0;
    assert(persistent_lines(paths@.take(0)) =~= Seq::<char>::empty());
    while i < paths.len()
        invariant
            i <= paths@.len(),
            out@ =~= old(out)@ + persistent_lines(paths@.take(i as int)),
        decreases paths@.len() - i,
    {
        assert(paths@.take(i + 1).drop_last() =~= paths@.take(i as int));
        out.append("  + ");
        out.append(paths[i].path.as_str());
        out.append("\n");
        i = i + 1;
    }
    assert(paths@.take(i as int) =~= paths@);
}

fn push_search_lines(out: &mut String, paths: &Vec<ShownPath>)
    ensures
        final(out)@ == old(out)@ + search_lines(paths@),
{
    let mut i: usize = 0;
    assert(search_lines(paths@.take(0)) =~= Seq::<char>::empty());
    while i < paths.len()
        invariant
            i <= paths@.len(),
            out@ =~= old(out)@ + search_lines(paths@.take(i as int)),
        decreases paths@.len() - i,
    {
        assert(paths@.take(i + 1).drop_last() =~= paths@.take(i as int));
        out.append("  ");
        out.append(paths[i].path.as_str());
        push_if(out, !paths[i].exists, " (not found)");
        out.append("\n");
        i = i + 1;
    }
    assert(paths@.take(i as int) =~= paths@);
}

/// Says where a scan looks.
pub fn scan_heading(
    is_explicit: bool,
    persistent: &Vec<ShownPath>,
    paths: &Vec<ShownPath>,
) -> (text: String)
    ensures
        text@ == scan_heading_text(is_explicit, persistent@, paths@),
{
    let mut out: String = String::from_str("Scanning for VST3 plugins...\n\n");
    let ghost first = out@;
    if is_explicit {
        out.append("Using only explicitly provided paths (defaults excluded).\n\n");
    } else if persistent.len() > 0 {
        out.append("Persistent scan paths (from config):\n");
        push_persistent_lines(&mut out, persistent);
        out.append("\n");
        assert(out@ =~= first + ("Persistent scan paths (from config):\n"@ + persistent_lines(
            persistent@,
        ) + "\n"@));
    } else {
        assert(out@ =~= first + Seq::<char>::empty());
    }
    out.append("Search paths:\n");
    push_search_lines(&mut out, paths);
    out.append("\n");
    out
}

/// Says how many bundles a scan has found.
pub open spec fn bundles_found_text(count: nat) -> Seq<char> {
    "Found "@ + text::digits(count) + " VST3 bundle(s).\n\n"@ + text::shown_if(
        count == 0,
        "No VST3 plugins found.\n"@,
    )
}

/// Says how many bundles a scan has found.
pub fn bundles_found(count: usize) -> (text: String)
    ensures
        text@ == bundles_found_text(count as nat),
{
    let mut out: String = String::from_str("Found ");
    push_digits(&mut out, count as u64);
    out.append(" VST3 bundle(s).\n\n");
    push_if(&mut out, count == 0, "No VST3 plugins found.\n");
    out
}

/// What a bundle is called: its stem, or its path where it has none.
pub open spec fn called(stem: Option<String>, path: Seq<char>) -> Seq<char> {
    match stem {
        Some(stem) => stem@,
        None => path,
    }
}

/// Announces that a bundle is loaded.
pub fn loading_text(stem: &Option<String>, path: &str) -> (text: String)
    ensures
        text@ == "  Loading "@ + called(*stem, path@) + "... "@,
{
    let mut out: String = String::from_str("  Loading ");
    match stem {
        Some(stem) => out.append(stem.as_str()),
        None => out.append(path),
    }
    out.append("... ");
    out
}

/// Announces that the bundle at a path is loaded.
pub fn loading_bundle(path: &str) -> (text: String)
    ensures
        exists|stem: Option<String>| #[trigger]
            plugins::possible_stem(path@, stem) && text@ == "  Loading "@ + called(stem, path@)
                + "... "@,
        plugins::is_plain_path(path@) ==> text@ == "  Loading "@ + (match plugins::stem_in(path@) {
            Some(stem) => stem,
            None => path@,
        }) + "... "@,
{
    let stem: Option<String> = path_stem(path);
    assert(plugins::possible_stem(path@, stem));
    loading_text(&stem, path)
}

/// What is shown of a class that a scan has found.
pub open spec fn found_line(class: PluginClassInfo) -> Seq<char> {
    "    - "@ + class.name@ + " ["@ + class.category@ + (match class.subcategories {
        Some(more) => " | "@ + more@,
        None => Seq::empty(),
    }) + "]\n"@
}

/// What is shown of the classes that a scan has found.
pub open spec fn found_lines(classes: Seq<PluginClassInfo>) -> Seq<char>
    decreases classes.len(),
{
    if classes.len() == 0 {
        Seq::empty()
    } else {
        found_lines(classes.drop_last()) + found_line(classes.last())
    }
}

/// What is shown of a module whose metadata could be read.
pub open spec fn loaded_text(info: PluginModuleInfo) -> Seq<char> {
    "OK ("@ + text::digits(info.classes@.len()) + " class(es))\n"@ + found_lines(info.classes@)
}

fn push_found_line(out: &mut String, class: &PluginClassInfo)
    ensures
        final(out)@ == old(out)@ + found_line(*class),
{
    out.append("    - ");
    out.append(class.name.as_str());
    out.append(" [");
    out.append(class.category.as_str());
    match &class.subcategories {
        Some(more) => {
            out.append(" | ");
            out.append(more.as_str());
        },
        None => {},
    }
    out.append("]\n");
    assert(out@ =~= old(out)@ + found_line(*class));
}

fn push_found_lines(out: &mut String, classes: &Vec<PluginClassInfo>)
    ensures
        final(out)@ == old(out)@ + found_lines(classes@),
{
    let mut i: usize = 0;
    assert(found_lines(classes@.take(0)) =~= Seq::<char>::empty());
    while i < classes.len()
        invariant
            i <= classes@.len(),
            out@ =~= old(out)@ + found_lines(classes@.take(i as int)),
        decreases classes@.len() - i,
    {
        assert(classes@.take(i + 1).drop_last() =~= classes@.take(i as int));
        push_found_line(out, &classes[i]);
        i = i + 1;
    }
    assert(classes@.take(i as int) =~= classes@);
}

/// What came of an attempt to load a bundle and read its metadata.
#[derive(Debug, PartialEq, Eq)]
pub enum BundleOutcome {
    /// The metadata.
    Info(PluginModuleInfo),
    /// The metadata could not be read, and why.
    MetadataError(String),
    /// The bundle could not be loaded, and why.
    LoadError(String),
}

impl BundleOutcome {
    /// What is shown of it.
    pub open spec fn text(self) -> Seq<char> {
        match self {
            BundleOutcome::Info(info) => loaded_text(info),
            BundleOutcome::MetadataError(e) => "metadata error: "@ + e@ + "\n"@,
            BundleOutcome::LoadError(e) => "load error: "@ + e@ + "\n"@,
        }
    }
}

/// Takes in what came of a bundle: a module whose metadata could be read is kept, and any other
/// is passed over. Returns what is shown.
pub fn take_in(modules: &mut Vec<PluginModuleInfo>, outcome: BundleOutcome) -> (text: String)
    ensures
        text@ == outcome.text(),
        final(modules)@ == (match outcome {
            BundleOutcome::Info(info) => old(modules)@.push(info),
            _ => old(modules)@,
        }),
{
    match outcome {
        BundleOutcome::Info(info) => {
            let mut out: String = String::from_str("OK (");
            push_digits(&mut out, info.classes.len() as u64);
            out.append(" class(es))\n");
            push_found_lines(&mut out, &info.classes);
            modules.push(info);
            out
        },
        BundleOutcome::MetadataError(e) => {
            let mut out: String = String::from_str("metadata error: ");
            out.append(e.as_str());
            out.append("\n");
            out
        },
        BundleOutcome::LoadError(e) => {
            let mut out: String = String::from_str("load error: ");
            out.append(e.as_str());
            out.append("\n");
            out
        },
    }
}

/// What a scan says that it has cached.
pub open spec fn scan_complete_text(modules: Seq<PluginModuleInfo>) -> Seq<char> {
    "\nScan complete: "@ + text::digits(modules.len()) + " module(s), "@ + text::digits(
        plugins::class_count(modules),
    ) + " plugin class(es) cached.\n"@
}

/// Says what a scan has cached.
pub fn scan_complete(modules: &Vec<PluginModuleInfo>) -> (text: String)
    requires
        plugins::class_count(modules@) <= usize::MAX,
    ensures
        text@ == scan_complete_text(modules@),
{
    let mut out: String = String::from_str("\nScan complete: ");
    push_digits(&mut out, modules.len() as u64);
    out.append(" module(s), ");
    push_digits(&mut out, total_classes(modules) as u64);
    out.append(" plugin class(es) cached.\n");
    out
}

/// Where a scan stands: each stage names what has to be done next.
#[derive(Clone, Copy, Debug, PartialEq, Eq, Structural)]
pub enum ScanStage {
    /// Looking for bundles.
    Discover,
    /// Loading the bundle at this position.
    Load { bundle: usize },
    /// Saving the cache.
    SaveCache,
    /// The scan is over.
    Finished,
    /// The scan has failed.
    Failed,
}

/// What came of what had to be done.
#[derive(Debug, PartialEq, Eq)]
pub enum ScanEvent {
    /// The number of bundles that were found.
    Discovered(usize),
    /// What came of a bundle.
    Loaded(BundleOutcome),
    /// The cache was saved.
    Saved,
    /// It could not be saved, and why.
    Failed(String),
}

/// A scan.
#[derive(Debug, PartialEq, Eq)]
pub struct Scan {
    /// Where the scan stands.
    pub stage: ScanStage,
    /// The number of bundles.
    pub bundles: usize,
    /// The modules that are kept.
    pub modules: Vec<PluginModuleInfo>,
    /// Why the scan failed, once it has.
    pub error: String,
}

impl Scan {
    /// The bundle is one of those that were found.
    pub open spec fn wf(self) -> bool {
        self.stage matches ScanStage::Load { bundle } ==> bundle < self.bundles
    }

    /// The event is one that can come of what has to be done.
    pub open spec fn expects(self, event: ScanEvent) -> bool {
        match self.stage {
            ScanStage::Discover => event is Discovered,
            ScanStage::Load { .. } => event is Loaded,
            ScanStage::SaveCache => event is Failed || (event is Saved && plugins::class_count(
                self.modules@,
            ) <= usize::MAX),
            _ => false,
        }
    }

    /// The stage after the event. Without a bundle there is nothing to load, and the cache is
    /// left as it was.
    pub open spec fn after(self, event: ScanEvent) -> ScanStage {
        match event {
            ScanEvent::Discovered(bundles) => if bundles == 0 {
                ScanStage::Finished
            } else {
                ScanStage::Load { bundle: 0 }
            },
            ScanEvent::Loaded(_) => if self.stage->bundle + 1 < self.bundles {
                ScanStage::Load { bundle: (self.stage->bundle + 1) as usize }
            } else {
                ScanStage::SaveCache
            },
            ScanEvent::Saved => ScanStage::Finished,
            ScanEvent::Failed(_) => ScanStage::Failed,
        }
    }

    /// What is shown on the event.
    pub open spec fn shown(self, event: ScanEvent) -> Seq<char> {
        match event {
            ScanEvent::Discovered(bundles) => bundles_found_text(bundles as nat),
            ScanEvent::Loaded(outcome) => outcome.text(),
            ScanEvent::Saved => scan_complete_text(self.modules@),
            ScanEvent::Failed(_) => Seq::empty(),
        }
    }

    /// Begins a scan.
    pub fn scan() -> (scan: Scan)
        ensures
            scan.wf(),
            scan.stage is Discover,
            scan.bundles == 0,
            scan.modules@.len() == 0,
            scan.error@.len() == 0,
    {
        Scan { stage: ScanStage::Discover, bundles: 0, modules: Vec::new(), error: String::new() }
    }

    /// Takes what came of what had to be done, and goes on. Returns what is shown.
    pub fn step(&mut self, event: ScanEvent) -> (out: String)
        requires
            old(self).wf(),
            old(self).expects(event),
        ensures
            final(self).wf(),
            out@ == old(self).shown(event),
            final(self).stage == old(self).after(event),
            final(self).bundles == (match event {
                ScanEvent::Discovered(bundles) => bundles,
                _ => old(self).bundles,
            }),
            final(self).modules@ == (match event {
                ScanEvent::Loaded(BundleOutcome::Info(info)) => old(self).modules@.push(info),
                _ => old(self).modules@,
            }),
            match event {
                ScanEvent::Failed(e) => final(self).error == e,
                _ => final(self).error == old(self).error,
            },
    {
        match event {
            ScanEvent::Discovered(bundles) => {
                self.bundles = bundles;
                self.stage = if bundles == 0 {
                    ScanStage::Finished
                } else {
                    ScanStage::Load { bundle: 0 }
                };
                bundles_found(bundles)
            },
            ScanEvent::Loaded(outcome) => {
                let bundle: usize = match self.stage {
                    ScanStage::Load { bundle } => bundle,
                    _ => vstd::pervasive::unreached(),
                };
                self.stage = if bundle + 1 < self.bundles {
                    ScanStage::Load { bundle: bundle + 1 }
                } else {
                    ScanStage::SaveCache
                };
                take_in(&mut self.modules, outcome)
            },
            ScanEvent::Saved => {
                self.stage = ScanStage::Finished;
                scan_complete(&self.modules)
            },
            ScanEvent::Failed(e) => {
                self.stage = ScanStage::Failed;
                self.error = e;
                let out: String = String::new();
                assert(out@ =~= Seq::<char>::empty());
                out
            },
        }
    }
}

/// The modules that outcomes leave, in their order.
pub open spec fn kept(outcomes: Seq<BundleOutcome>) -> Seq<PluginModuleInfo>
    decreases outcomes.len(),
{
    if outcomes.len() == 0 {
        Seq::empty()
    } else {
        match outcomes.last() {
            BundleOutcome::Info(info) => kept(outcomes.drop_last()).push(info),
            _ => kept(outcomes.drop_last()),
        }
    }
}

/// The modules that a scan has kept once its bundles had these outcomes, and where it stands.
pub open spec fn scanned(bundles: usize, outcomes: Seq<BundleOutcome>, scan: Scan) -> bool {
    &&& scan.bundles == bundles
    &&& scan.modules@ == kept(outcomes)
    &&& scan.stage == (if bundles == 0 {
        ScanStage::Finished
    } else if outcomes.len() < bundles {
        ScanStage::Load { bundle: outcomes.len() as usize }
    } else {
        ScanStage::SaveCache
    })
}

/// A scan loads every bundle once, in the order in which they were found, and keeps those modules
/// whose metadata could be read, in that order: a bundle that fails stops nothing and takes
/// nothing away. The cache is saved only after the last bundle, and not at all without one.
pub proof fn lemma_scan_keeps(
    bundles: usize,
    outcomes: Seq<BundleOutcome>,
    outcome: BundleOutcome,
    scan: Scan,
    next: Scan,
)
    requires
        outcomes.len() < bundles,
        scanned(bundles, outcomes, scan),
        next.bundles == scan.bundles,
        next.stage == scan.after(ScanEvent::Loaded(outcome)),
        next.modules@ == (match outcome {
            BundleOutcome::Info(info) => scan.modules@.push(info),
            _ => scan.modules@,
        }),
    ensures
        scanned(bundles, outcomes.push(outcome), next),
{
    assert(outcomes.push(outcome).drop_last() =~= outcomes);
}

/// A scan has taken events one after the other: behind each it stands as the step says.
pub open spec fn takes_events(scans: Seq<Scan>, events: Seq<ScanEvent>) -> bool {
    &&& scans.len() == events.len() + 1
    &&& forall|k: int|
        #![trigger events[k]]
        0 <= k < events.len() ==> {
            &&& scans[k].expects(events[k])
            &&& scans[k + 1].stage == scans[k].after(events[k])
            &&& scans[k + 1].bundles == (match events[k] {
                ScanEvent::Discovered(bundles) => bundles,
                _ => scans[k].bundles,
            })
            &&& scans[k + 1].modules@ == (match events[k] {
                ScanEvent::Loaded(BundleOutcome::Info(info)) => scans[k].modules@.push(info),
                _ => scans[k].modules@,
            })
        }
}

/// A scan that has found bundles loads each of them once: the first one first, then the one after
/// it, up to the last. Only then is the cache saved, and only when it is saved is the scan
/// finished. A scan that has found none is finished at once.
pub proof fn lemma_scan_loads_all(scans: Seq<Scan>, events: Seq<ScanEvent>, n: usize, k: int)
    requires
        takes_events(scans, events),
        0 < events.len(),
        scans[0].stage is Discover,
        scans[0].modules@.len() == 0,
        events[0] == ScanEvent::Discovered(n),
        1 <= k < scans.len(),
    ensures
        scans[k].bundles == n,
        n == 0 ==> k == 1 && scans[k].stage is Finished,
        1 <= k <= n ==> scans[k].stage == (ScanStage::Load { bundle: (k - 1) as usize }),
        0 < n && k == n + 1 ==> scans[k].stage is SaveCache,
        0 < n && k == n + 2 ==> (match events[k - 1] {
            ScanEvent::Saved => scans[k].stage is Finished,
            _ => events[k - 1] is Failed && scans[k].stage is Failed,
        }),
        k <= n + 2,
    decreases k,
{
    let event = events[k - 1];
    if k > 1 {
        lemma_scan_loads_all(scans, events, n, k - 1);
    }
}

/// A scan keeps the modules of exactly those bundles whose metadata could be read, in the order in
/// which the bundles were loaded.
pub proof fn lemma_scan_keeps_in_order(scans: Seq<Scan>, events: Seq<ScanEvent>, k: int)
    requires
        takes_events(scans, events),
        scans[0].modules@.len() == 0,
        0 <= k < scans.len(),
    ensures
        scans[k].modules@ == events.take(k).filter(
            |e: ScanEvent| e matches ScanEvent::Loaded(BundleOutcome::Info(_)),
        ).map_values(|e: ScanEvent| e->Loaded_0->Info_0),
    decreases k,
{
    let has = |e: ScanEvent| e matches ScanEvent::Loaded(BundleOutcome::Info(_));
    let info = |e: ScanEvent| e->Loaded_0->Info_0;
    reveal(Seq::filter);
    if k > 0 {
        lemma_scan_keeps_in_order(scans, events, k - 1);
        let event = events[k - 1];
        let before = events.take(k - 1);
        assert(events.take(k).drop_last() =~= before);
        assert(events.take(k).last() == event);
        if has(event) {
            assert(before.filter(has).push(event).map_values(info) =~= before.filter(has).map_values(
                info,
            ).push(info(event)));
        }
    } else {
        assert(scans[0].modules@ =~= events.take(0).filter(has).map_values(info));
    }
}

/// Every persistent directory is shown once, in order.
pub proof fn lemma_persistent_complete(paths: Seq<ShownPath>)
    ensures
        persistent_lines(paths) == Seq::new(
            paths.len(),
            |k: int| "  + "@ + paths[k].path@ + "\n"@,
        ).flatten(),
    decreases paths.len(),
{
    let line = |k: int| "  + "@ + paths[k].path@ + "\n"@;
    if paths.len() > 0 {
        let before = paths.drop_last();
        let n = before.len();
        lemma_persistent_complete(before);
        text::lemma_joined(line, n);
        assert(Seq::new(n, line) =~= Seq::new(n, |k: int| "  + "@ + before[k].path@ + "\n"@));
        assert(persistent_lines(paths) =~= persistent_lines(before) + line(n as int));
    } else {
        text::lemma_joined(line, 0);
    }
}

/// Every directory of a search is shown once, in order, and one that does not exist is marked.
pub proof fn lemma_search_complete(paths: Seq<ShownPath>)
    ensures
        search_lines(paths) == Seq::new(
            paths.len(),
            |k: int|
                "  "@ + paths[k].path@ + (if paths[k].exists {
                    Seq::empty()
                } else {
                    " (not found)"@
                }) + "\n"@,
        ).flatten(),
    decreases paths.len(),
{
    let line = |k: int|
        "  "@ + paths[k].path@ + (if paths[k].exists {
            Seq::empty()
        } else {
            " (not found)"@
        }) + "\n"@;
    if paths.len() > 0 {
        let before = paths.drop_last();
        let n = before.len();
        lemma_search_complete(before);
        text::lemma_joined(line, n);
        assert(Seq::new(n, line) =~= Seq::new(
            n,
            |k: int|
                "  "@ + before[k].path@ + (if before[k].exists {
                    Seq::empty()
                } else {
                    " (not found)"@
                }) + "\n"@,
        ));
        assert(search_lines(paths) =~= search_lines(before) + line(n as int));
    } else {
        text::lemma_joined(line, 0);
    }
}

/// Every class that was found is shown once, in order, with its category and with its
/// subcategories where it has any.
pub proof fn lemma_found_complete(classes: Seq<PluginClassInfo>)
    ensures
        found_lines(classes) == Seq::new(
            classes.len(),
            |k: int|
                "    - "@ + classes[k].name@ + " ["@ + classes[k].category@ + (
                match classes[k].subcategories {
                    Some(more) => " | "@ + more@,
                    None => Seq::empty(),
                }) + "]\n"@,
        ).flatten(),
    decreases classes.len(),
{
    let line = |k: int|
        "    - "@ + classes[k].name@ + " ["@ + classes[k].category@ + (
        match classes[k].subcategories {
            Some(more) => " | "@ + more@,
            None => Seq::empty(),
        }) + "]\n"@;
    if classes.len() > 0 {
        let before = classes.drop_last();
        let n = before.len();
        lemma_found_complete(before);
        text::lemma_joined(line, n);
        assert(Seq::new(n, line) =~= Seq::new(
            n,
            |k: int|
                "    - "@ + before[k].name@ + " ["@ + before[k].category@ + (
                match before[k].subcategories {
                    Some(more) => " | "@ + more@,
                    None => Seq::empty(),
                }) + "]\n"@,
        ));
        assert(found_lines(classes) =~= found_lines(before) + line(n as int));
    } else {
        text::lemma_joined(line, 0);
    }
}

/// What a scan says on its way: where it looks, with a note where only explicit paths count and
/// with the persistent directories where they count and there are any; how many bundles there are;
/// what came of each; and what is cached in the end.
pub proof fn lemma_scan_texts(
    is_explicit: bool,
    persistent: Seq<ShownPath>,
    paths: Seq<ShownPath>,
    count: nat,
    outcome: BundleOutcome,
    modules: Seq<PluginModuleInfo>,
)
    ensures
        ({
            let heading = scan_heading_text(is_explicit, persistent, paths);
            let start = "Scanning for VST3 plugins...\n\n"@;
            let end = "Search paths:\n"@ + search_lines(paths) + "\n"@;
            let note = "Using only explicitly provided paths (defaults excluded).\n\n"@;
            let listed = "Persistent scan paths (from config):\n"@ + persistent_lines(persistent)
                + "\n"@;
            &&& is_explicit ==> heading == start + note + end
            &&& !is_explicit && persistent.len() > 0 ==> heading == start + listed + end
            &&& !is_explicit && persistent.len() == 0 ==> heading == start + end
        }),
        count > 0 ==> bundles_found_text(count) == "Found "@ + text::digits(count)
            + " VST3 bundle(s).\n\n"@,
        count == 0 ==> bundles_found_text(count) == "Found "@ + text::digits(0)
            + " VST3 bundle(s).\n\n"@ + "No VST3 plugins found.\n"@,
        outcome matches BundleOutcome::Info(info) ==> outcome.text() == "OK ("@ + text::digits(
            info.classes@.len(),
        ) + " class(es))\n"@ + found_lines(info.classes@),
        outcome matches BundleOutcome::MetadataError(e) ==> outcome.text() == "metadata error: "@
            + e@ + "\n"@,
        outcome matches BundleOutcome::LoadError(e) ==> outcome.text() == "load error: "@ + e@
            + "\n"@,
        scan_complete_text(modules) == "\nScan complete: "@ + text::digits(modules.len())
            + " module(s), "@ + text::digits(commands::all_classes(modules).len())
            + " plugin class(es) cached.\n"@,
{
    let heading = scan_heading_text(is_explicit, persistent, paths);
    let start = "Scanning for VST3 plugins...\n\n"@;
    let end = "Search paths:\n"@ + search_lines(paths) + "\n"@;
    if is_explicit {
        assert(heading =~= start
            + "Using only explicitly provided paths (defaults excluded).\n\n"@ + end);
    } else if persistent.len() > 0 {
        assert(heading =~= start + ("Persistent scan paths (from config):\n"@ + persistent_lines(
            persistent,
        ) + "\n"@) + end);
    } else {
        assert(heading =~= start + end);
    }
    if count > 0 {
        assert(bundles_found_text(count) =~= "Found "@ + text::digits(count)
            + " VST3 bundle(s).\n\n"@);
    }
    commands::lemma_list_complete(modules);
}

/// What is shown on an event is what the event says: the number of bundles, what came of a bundle,
/// or what was cached; nothing on a failure.
pub proof fn lemma_scan_shown(scan: Scan, event: ScanEvent)
    ensures
        event matches ScanEvent::Discovered(n) ==> scan.shown(event) == bundles_found_text(n as nat),
        event matches ScanEvent::Loaded(outcome) ==> scan.shown(event) == outcome.text(),
        event is Saved ==> scan.shown(event) == scan_complete_text(scan.modules@),
        event is Failed ==> scan.shown(event).len() == 0,
{
}

/// A bundle goes by its stem where it has one, and by its path where it has none.
pub proof fn lemma_called(stem: Option<String>, path: Seq<char>)
    ensures
        stem matches Some(s) ==> called(stem, path) == s@,
        stem is None ==> called(stem, path) == path,
{
}

} // verus!
