//! What the host knows about the plugins that it has found, and the choice of one of them.

use vstd::prelude::*;
use vstd::string::*;

use crate::text;

verus! {

/// A class of plugins in a module.
#[derive(Debug, PartialEq, Eq)]
pub struct PluginClassInfo {
    /// The name of the class.
    pub name: String,
    /// What kind of class it is.
    pub category: String,
    /// Its kind in more detail.
    pub subcategories: Option<String>,
    /// Who made it.
    pub vendor: Option<String>,
    /// Its identifier.
    pub cid: [u8; 16],
}

/// A module of plugins.
#[derive(Debug, PartialEq, Eq)]
pub struct PluginModuleInfo {
    /// Where the module lies.
    pub path: String,
    /// Who made the module.
    pub factory_vendor: Option<String>,
    /// The classes in it.
    pub classes: Vec<PluginClassInfo>,
}

/// The modules that a scan has found.
#[derive(Debug, PartialEq, Eq)]
pub struct ScanCache {
    /// When the scan took place.
    pub scan_timestamp: String,
    /// The modules.
    pub modules: Vec<PluginModuleInfo>,
}

/// A class that was chosen, and the module to load it from.
#[derive(Debug, PartialEq, Eq)]
pub struct PluginChoice {
    /// Where the module lies.
    pub path: String,
    /// The name of the class.
    pub class_name: String,
    /// Its identifier.
    pub cid: [u8; 16],
}

impl PluginChoice {
    /// The choice of a class of a module.
    pub open spec fn is_of(self, path: Seq<char>, class: PluginClassInfo) -> bool {
        self.path@ == path && self.class_name@ == class.name@ && self.cid == class.cid
    }
}

/// What `str::to_lowercase` makes of a string.
pub uninterp spec fn lowercase(s: Seq<char>) -> Seq<char>;

/// The lower-case form of an ASCII letter; any other character as it is.
pub open spec fn ascii_lowercase(c: char) -> char {
    if 'A' <= c <= 'Z' {
        (c as u32 + 32) as u32 as char
    } else {
        c
    }
}

/// The string holds ASCII characters only.
pub open spec fn is_ascii(s: Seq<char>) -> bool {
    forall|i: int| 0 <= i < s.len() ==> (s[i] as u32) < 128
}

/// An ASCII string in lower case.
pub open spec fn ascii_lowered(s: Seq<char>) -> Seq<char> {
    s.map_values(|c: char| ascii_lowercase(c))
}

/// The lower-case form of a string is known where the string is an ASCII one.
pub open spec fn lowercase_known(s: Seq<char>) -> bool {
    is_ascii(s) ==> lowercase(s) == ascii_lowered(s)
}

/// `str::to_lowercase` gives the lower-case form of a string, which depends on the string alone.
/// It turns each ASCII letter of an ASCII string into its lower-case form.
#[verifier::external_body]
fn to_lowercase(s: &str) -> (r: String)
    ensures
        r@ == lowercase(s@),
        is_ascii(s@) ==> r@ == ascii_lowered(s@),
{
    s.to_lowercase()
}

/// One string occurs in another at a position.
pub open spec fn occurs_at(part: Seq<char>, whole: Seq<char>, position: int) -> bool {
    0 <= position <= whole.len() - part.len() && whole.subrange(
        position,
        position + part.len(),
    ) == part
}

/// One string occurs in another.
pub open spec fn occurs(part: Seq<char>, whole: Seq<char>) -> bool {
    exists|position: int| #[trigger] occurs_at(part, whole, position)
}

fn has_at(whole: &Vec<char>, part: &Vec<char>, position: usize) -> (found: bool)
    requires
        position + part@.len() <= whole@.len(),
    ensures
        found == occurs_at(part@, whole@, position as int),
{
    let end: usize = whole.len();
    let mut i: usize = 0;
    while i < part.len()
        invariant
            i <= part@.len(),
            end == whole@.len(),
            position + part@.len() <= end,
            forall|j: int| 0 <= j < i ==> whole@[position + j] == part@[j],
        decreases part@.len() - i,
    {
        if whole[position + i] != part[i] {
            assert(whole@.subrange(position as int, position + part@.len())[i as int]
                != part@[i as int]);
            return false;
        }
        i = i + 1;
    }
    assert(whole@.subrange(position as int, position + part@.len()) =~= part@);
    true
}

fn contains(whole: &str, part: &str) -> (found: bool)
    ensures
        found == occurs(part@, whole@),
{
    let w: Vec<char> = text::chars_of(whole);
    let p: Vec<char> = text::chars_of(part);
    if p.len() > w.len() {
        return false;
    }
    let last: usize = w.len() - p.len();
    let mut position: usize = 0;
    loop
        invariant
            w@ == whole@,
            p@ == part@,
            p@.len() <= w@.len(),
            last == w@.len() - p@.len(),
            position <= last,
            forall|k: int| 0 <= k < position ==> !occurs_at(part@, whole@, k),
        decreases last - position,
    {
        if has_at(&w, &p, position) {
            return true;
        }
        if position == last {
            return false;
        }
        position = position + 1;
    }
}

/// A character that separates names on some platform.
pub open spec fn is_separator(c: char) -> bool {
    c == '/' || c == '\\' || c == ':'
}

/// The path begins with two slashes of either kind, which is how the name of a server begins on
/// some platforms.
pub open spec fn names_server(path: Seq<char>) -> bool {
    &&& path.len() >= 2
    &&& path[0] == '/' || path[0] == '\\'
    &&& path[1] == '/' || path[1] == '\\'
}

/// A path whose last name every platform reads alike: it does not begin with a server, and there
/// is neither a backslash nor a colon in its last name.
pub open spec fn is_plain_path(path: Seq<char>) -> bool {
    let name = after_last(trimmed(path), '/');
    !names_server(path) && !name.contains('\\') && !name.contains(':')
}

/// The path without what does not count at its end: slashes, and names that are a single dot.
pub open spec fn trimmed(path: Seq<char>) -> Seq<char>
    decreases path.len(),
{
    if path.len() > 0 && path.last() == '/' {
        trimmed(path.drop_last())
    } else if path.len() >= 2 && path.last() == '.' && path[path.len() - 2] == '/' {
        trimmed(path.drop_last())
    } else {
        path
    }
}

/// What follows the last place where a character stands; all of the string where it does not.
pub open spec fn after_last(s: Seq<char>, c: char) -> Seq<char>
    decreases s.len(),
{
    if s.len() == 0 || s.last() == c {
        Seq::empty()
    } else {
        after_last(s.drop_last(), c).push(s.last())
    }
}

/// What follows the last character that separates names on some platform; all of the string where
/// there is none.
pub open spec fn after_separator(s: Seq<char>) -> Seq<char>
    decreases s.len(),
{
    if s.len() == 0 || is_separator(s.last()) {
        Seq::empty()
    } else {
        after_separator(s.drop_last()).push(s.last())
    }
}

/// The end of the last name in a path, on which every platform agrees.
pub open spec fn last_part(path: Seq<char>) -> Seq<char> {
    after_separator(trimmed(path))
}

/// The last name in a plain path. There is none where the path is empty, a root, or ends in the
/// directory itself or in the one above.
pub open spec fn last_name(path: Seq<char>) -> Option<Seq<char>> {
    let name = after_last(trimmed(path), '/');
    if name.len() == 0 || name == seq!['.'] || name == seq!['.', '.'] {
        None
    } else {
        Some(name)
    }
}

/// The name has an extension: there is a dot in it behind the first character.
pub open spec fn has_extension(name: Seq<char>) -> bool {
    name.len() > 0 && name.drop_first().contains('.')
}

/// The extension of a name: what follows its last dot.
pub open spec fn extension_of(name: Seq<char>) -> Option<Seq<char>> {
    if has_extension(name) {
        Some(after_last(name, '.'))
    } else {
        None
    }
}

/// A name without its extension and the dot in front of that.
pub open spec fn stem_of(name: Seq<char>) -> Seq<char> {
    if has_extension(name) {
        name.take(name.len() - after_last(name, '.').len() - 1)
    } else {
        name
    }
}

/// The extension of the last name in a plain path.
pub open spec fn extension_in(path: Seq<char>) -> Option<Seq<char>> {
    match last_name(path) {
        Some(name) => extension_of(name),
        None => None,
    }
}

/// The stem of the last name in a plain path.
pub open spec fn stem_in(path: Seq<char>) -> Option<Seq<char>> {
    match last_name(path) {
        Some(name) => Some(stem_of(name)),
        None => None,
    }
}

/// The contents of a string, where there is one.
pub open spec fn text_of(s: Option<String>) -> Option<Seq<char>> {
    match s {
        Some(s) => Some(s@),
        None => None,
    }
}

/// What the extension of the last name in a path can be. Of a plain path it is the one that the
/// path has. Of any other that does not begin with a server it follows the last dot of the last
/// part, where that has a dot behind its first character; where the last part has no dot, there is
/// no extension, or it reaches back over a backslash or a colon. In any case it is a part of the
/// path behind a dot, without a dot in it.
pub open spec fn possible_extension(path: Seq<char>, extension: Option<String>) -> bool {
    let part = last_part(path);
    &&& is_plain_path(path) ==> text_of(extension) == extension_in(path)
    &&& !names_server(path) && has_extension(part) && part != seq!['.', '.'] ==> text_of(extension)
        == Some(after_last(part, '.'))
    &&& !names_server(path) && part.len() > 0 && !part.contains('.') ==> (
    extension matches Some(e) ==> e@.contains('\\') || e@.contains(':'))
    &&& extension matches Some(e) ==> occurs(seq!['.'] + e@, path) && !e@.contains('.')
}

/// What the stem of the last name in a path can be: of a plain path the one that it has, and of
/// any other a part of the path.
pub open spec fn possible_stem(path: Seq<char>, stem: Option<String>) -> bool {
    &&& is_plain_path(path) ==> text_of(stem) == stem_in(path)
    &&& stem matches Some(s) ==> occurs(s@, path)
}

/// `Path::extension` gives the part of the last name in a path behind its last dot, unless that
/// dot is the first character of the name. How a path falls into names depends on the platform: a
/// backslash and a colon belong to names on some and separate them on others. So it is only said
/// which part that is where all platforms agree.
#[verifier::external_body]
fn path_extension(path: &str) -> (r: Option<String>)
    ensures
        possible_extension(path@, r),
{
    std::path::Path::new(path).extension().map(|e| e.to_string_lossy().into_owned())
}

/// `Path::file_stem` gives the last name in a path without its extension. How a path falls into
/// names depends on the platform, so it is only said of plain paths which part that is.
#[verifier::external_body]
pub(crate) fn path_stem(path: &str) -> (r: Option<String>)
    ensures
        possible_stem(path@, r),
{
    std::path::Path::new(path).file_stem().map(|s| s.to_string_lossy().into_owned())
}

/// The extension is that of a plugin bundle.
pub open spec fn is_bundle(extension: Option<String>) -> bool {
    extension matches Some(e) && e@ == "vst3"@
}

/// The extension is that of a plugin bundle.
pub fn is_bundle_extension(extension: &Option<String>) -> (b: bool)
    ensures
        b == is_bundle(*extension),
{
    match extension {
        Some(e) => text::same_text(e.as_str(), "vst3"),
        None => false,
    }
}

/// Whether the path is that of a bundle, where all platforms agree on it.
pub open spec fn known_bundle(path: Seq<char>) -> Option<bool> {
    let part = last_part(path);
    if names_server(path) {
        None
    } else if is_plain_path(path) {
        Some(extension_in(path) == Some("vst3"@))
    } else if has_extension(part) && part != seq!['.', '.'] {
        Some(after_last(part, '.') == "vst3"@)
    } else if part.len() > 0 && !part.contains('.') {
        Some(false)
    } else {
        None
    }
}

/// Whether a plugin is given by the path of a bundle, which takes that something exists there.
pub fn is_bundle_path(plugin: &str, exists: bool) -> (b: bool)
    ensures
        known_bundle(plugin@) matches Some(bundle) ==> b == (exists && bundle),
        exists|extension: Option<String>| #[trigger]
            possible_extension(plugin@, extension) && b == (exists && is_bundle(extension)),
        b ==> exists && occurs(".vst3"@, plugin@),
{
    let extension: Option<String> = path_extension(plugin);
    let b: bool = is_bundle_extension(&extension) && exists;
    proof {
        assert(possible_extension(plugin@, extension));
        reveal_strlit("vst3");
        reveal_strlit(".vst3");
        assert(!"vst3"@.contains('\\') && !"vst3"@.contains(':'));
        assert(".vst3"@ =~= seq!['.'] + "vst3"@);
    }
    b
}

/// Where the class of a plugin is looked for.
#[derive(Clone, Copy, Debug, PartialEq, Eq, Structural)]
pub enum PluginSource {
    /// In the bundle that the plugin is given by.
    Bundle,
    /// In the cache, by the name that the plugin is given by.
    Cache,
}

/// Where the class of a plugin is looked for, given the extension of the path that it may be:
/// in the bundle where the extension is that of a bundle and something exists there, and in the
/// cache otherwise.
pub open spec fn source_of(extension: Option<String>, exists: bool) -> PluginSource {
    if exists && is_bundle(extension) {
        PluginSource::Bundle
    } else {
        PluginSource::Cache
    }
}

/// Where the class of a plugin is looked for, given the extension of the path that it may be.
pub fn extension_source(extension: &Option<String>, exists: bool) -> (source: PluginSource)
    ensures
        source == source_of(*extension, exists),
{
    if exists && is_bundle_extension(extension) {
        PluginSource::Bundle
    } else {
        PluginSource::Cache
    }
}

/// Where the class of a plugin is looked for: in the bundle where the plugin is given by the path
/// of a bundle that exists, and in the cache otherwise, be it that the path is no bundle's or that
/// nothing exists there.
pub fn plugin_source(plugin: &str, exists: bool) -> (source: PluginSource)
    ensures
        known_bundle(plugin@) matches Some(bundle) ==> (source is Bundle <==> exists && bundle),
        exists|extension: Option<String>| #[trigger]
            possible_extension(plugin@, extension) && source == source_of(extension, exists),
        !exists ==> source is Cache,
        !occurs(".vst3"@, plugin@) ==> source is Cache,
{
    let extension: Option<String> = path_extension(plugin);
    let source: PluginSource = extension_source(&extension, exists);
    proof {
        assert(possible_extension(plugin@, extension));
        reveal_strlit("vst3");
        reveal_strlit(".vst3");
        assert(!"vst3"@.contains('\\') && !"vst3"@.contains(':'));
        assert(".vst3"@ =~= seq!['.'] + "vst3"@);
    }
    source
}

/// The contents of strings.
pub open spec fn texts(strings: Seq<String>) -> Seq<Seq<char>> {
    strings.map_values(|s: String| s@)
}

/// The contents of lists of strings.
pub open spec fn text_lists(lists: Seq<Vec<String>>) -> Seq<Seq<Seq<char>>> {
    lists.map_values(|list: Vec<String>| texts(list@))
}

/// The names of the classes of a module, in lower case.
pub open spec fn lowered_names(module: PluginModuleInfo) -> Seq<Seq<char>> {
    module.classes@.map_values(|class: PluginClassInfo| lowercase(class.name@))
}

/// The names of the classes of each module, in lower case.
pub open spec fn all_lowered_names(modules: Seq<PluginModuleInfo>) -> Seq<Seq<Seq<char>>> {
    modules.map_values(|module: PluginModuleInfo| lowered_names(module))
}

/// The lower-case form of every class name of a module is known where the name is an ASCII one.
pub open spec fn names_known(module: PluginModuleInfo) -> bool {
    forall|c: int|
        0 <= c < module.classes@.len() ==> lowercase_known((#[trigger] module.classes@[c]).name@)
}

/// The lower-case forms of a query, of the class names and of the stems are known where those are
/// ASCII ones.
pub open spec fn all_known(
    query: Seq<char>,
    modules: Seq<PluginModuleInfo>,
    stems: Seq<Option<String>>,
) -> bool {
    &&& lowercase_known(query)
    &&& forall|m: int| 0 <= m < modules.len() ==> names_known(#[trigger] modules[m])
    &&& forall|m: int|
        0 <= m < stems.len() ==> (#[trigger] stems[m] matches Some(s) ==> lowercase_known(s@))
}

/// A file stem in lower case; empty where there is none.
pub open spec fn lowered_stem(stem: Option<String>) -> Seq<char> {
    match stem {
        Some(s) => lowercase(s@),
        None => Seq::empty(),
    }
}

/// The file stems in lower case.
pub open spec fn lowered_stems(stems: Seq<Option<String>>) -> Seq<Seq<char>> {
    stems.map_values(|stem: Option<String>| lowered_stem(stem))
}

/// The query occurs in the name of a class of a module.
pub open spec fn fits_at(
    names: Seq<Seq<Seq<char>>>,
    query: Seq<char>,
    module: int,
    class: int,
) -> bool {
    &&& 0 <= module < names.len()
    &&& 0 <= class < names[module].len()
    &&& occurs(query, names[module][class])
}

/// The query occurs in the stem of a module that has a class.
pub open spec fn stem_fits_at(
    names: Seq<Seq<Seq<char>>>,
    stems: Seq<Seq<char>>,
    query: Seq<char>,
    module: int,
) -> bool {
    &&& 0 <= module < names.len()
    &&& names[module].len() > 0
    &&& occurs(query, stems[module])
}

/// The module and the class that are found for a query: the first class whose name fits, in the
/// order of the modules; failing that, the first class of the first module whose stem fits.
pub open spec fn found(
    names: Seq<Seq<Seq<char>>>,
    stems: Seq<Seq<char>>,
    query: Seq<char>,
    r: Option<(usize, usize)>,
) -> bool {
    match r {
        Some((module, class)) => {
            ||| {
                &&& fits_at(names, query, module as int, class as int)
                &&& forall|m: int, c: int| #[trigger]
                    fits_at(names, query, m, c) ==> module < m || (module == m && class <= c)
            }
            ||| {
                &&& forall|m: int, c: int| !#[trigger] fits_at(names, query, m, c)
                &&& class == 0
                &&& stem_fits_at(names, stems, query, module as int)
                &&& forall|m: int| #[trigger]
                    stem_fits_at(names, stems, query, m) ==> module <= m
            }
        },
        None => {
            &&& forall|m: int, c: int| !#[trigger] fits_at(names, query, m, c)
            &&& forall|m: int| !#[trigger] stem_fits_at(names, stems, query, m)
        },
    }
}

/// Finds the module and the class for a query. The names are those of the classes of each module,
/// the stems those of the paths of the modules, and all of them are in lower case.
pub fn find_lowered(
    query: &str,
    names: &Vec<Vec<String>>,
    stems: &Vec<String>,
) -> (r: Option<(usize, usize)>)
    requires
        stems@.len() == names@.len(),
    ensures
        found(text_lists(names@), texts(stems@), query@, r),
{
    let ghost all: Seq<Seq<Seq<char>>> = text_lists(names@);
    let mut m: usize = 0;
    while m < names.len()
        invariant
            m <= names@.len(),
            all == text_lists(names@),
            forall|i: int, c: int| i < m ==> !#[trigger] fits_at(all, query@, i, c),
        decreases names@.len() - m,
    {
        let classes: &Vec<String> = &names[m];
        let mut c: usize = 0;
        while c < classes.len()
            invariant
                m < names@.len(),
                all == text_lists(names@),
                classes@ == names@[m as int]@,
                c <= classes@.len(),
                forall|i: int, k: int| i < m ==> !#[trigger] fits_at(all, query@, i, k),
                forall|k: int| k < c ==> !#[trigger] fits_at(all, query@, m as int, k),
            decreases classes@.len() - c,
        {
            if contains(classes[c].as_str(), query) {
                assert(fits_at(all, query@, m as int, c as int));
                return Some((m, c));
            }
            c = c + 1;
        }
        m = m + 1;
    }
    let mut s: usize = 0;
    while s < names.len()
        invariant
            s <= names@.len(),
            stems@.len() == names@.len(),
            all == text_lists(names@),
            forall|i: int, c: int| !#[trigger] fits_at(all, query@, i, c),
            forall|i: int| i < s ==> !#[trigger] stem_fits_at(all, texts(stems@), query@, i),
        decreases names@.len() - s,
    {
        if contains(stems[s].as_str(), query) && names[s].len() > 0 {
            assert(stem_fits_at(all, texts(stems@), query@, s as int));
            return Some((s, 0));
        }
        s = s + 1;
    }
    None
}

fn lower_names(module: &PluginModuleInfo) -> (r: Vec<String>)
    ensures
        texts(r@) == lowered_names(*module),
        names_known(*module),
{
    let classes: &Vec<PluginClassInfo> = &module.classes;
    let mut names: Vec<String> = Vec::new();
    while names.len() < classes.len()
        invariant
            classes@ == module.classes@,
            names@.len() <= classes@.len(),
            forall|i: int|
                0 <= i < names@.len() ==> (#[trigger] names@[i])@ == lowercase(classes@[i].name@),
            forall|i: int|
                0 <= i < names@.len() ==> lowercase_known((#[trigger] classes@[i]).name@),
        decreases classes@.len() - names@.len(),
    {
        let name: String = to_lowercase(classes[names.len()].name.as_str());
        names.push(name);
    }
    assert(texts(names@) =~= lowered_names(*module));
    names
}

/// Finds the module and the class for a plugin name, whatever its case. The stems are those of
/// the paths of the modules.
pub fn find_plugin(
    plugin: &str,
    modules: &Vec<PluginModuleInfo>,
    stems: &Vec<Option<String>>,
) -> (r: Option<(usize, usize)>)
    requires
        stems@.len() == modules@.len(),
    ensures
        found(all_lowered_names(modules@), lowered_stems(stems@), lowercase(plugin@), r),
        all_known(plugin@, modules@, stems@),
{
    let mut names: Vec<Vec<String>> = Vec::new();
    while names.len() < modules.len()
        invariant
            names@.len() <= modules@.len(),
            forall|i: int|
                0 <= i < names@.len() ==> texts(#[trigger] names@[i]@) == lowered_names(
                    modules@[i],
                ),
            forall|m: int| 0 <= m < names@.len() ==> names_known(#[trigger] modules@[m]),
        decreases modules@.len() - names@.len(),
    {
        let module_names: Vec<String> = lower_names(&modules[names.len()]);
        names.push(module_names);
    }
    let mut lowered: Vec<String> = Vec::new();
    while lowered.len() < stems.len()
        invariant
            lowered@.len() <= stems@.len(),
            forall|i: int|
                0 <= i < lowered@.len() ==> (#[trigger] lowered@[i])@ == lowered_stem(stems@[i]),
            forall|m: int|
                0 <= m < lowered@.len() ==> (#[trigger] stems@[m] matches Some(s)
                    ==> lowercase_known(s@)),
        decreases stems@.len() - lowered@.len(),
    {
        let stem: String = match &stems[lowered.len()] {
            Some(stem) => to_lowercase(stem.as_str()),
            None => String::new(),
        };
        lowered.push(stem);
    }
    assert(text_lists(names@) =~= all_lowered_names(modules@));
    assert(texts(lowered@) =~= lowered_stems(stems@));
    let query: String = to_lowercase(plugin);
    find_lowered(query.as_str(), &names, &lowered)
}

/// The text that says that there is no cache to look a plugin up in.
pub open spec fn no_cache_text() -> Seq<char> {
    "No plugin cache found. Run 'scan' first, or provide a .vst3 path."@
}

/// The text that says that a plugin was not found.
pub open spec fn not_found_text(plugin: Seq<char>) -> Seq<char> {
    "Plugin '"@ + plugin + "' not found. Run 'list' to see available plugins."@
}

/// The stems are those that the paths of the modules can have.
pub open spec fn stems_of(modules: Seq<PluginModuleInfo>, stems: Seq<Option<String>>) -> bool {
    &&& stems.len() == modules.len()
    &&& forall|i: int|
        0 <= i < stems.len() ==> possible_stem(modules[i].path@, #[trigger] stems[i])
}

/// What a plugin name is resolved to, given what was found for it.
pub open spec fn resolved(
    plugin: Seq<char>,
    modules: Seq<PluginModuleInfo>,
    at: Option<(usize, usize)>,
    r: Result<PluginChoice, String>,
) -> bool {
    match at {
        Some((m, c)) => r matches Ok(choice) && choice.is_of(
            modules[m as int].path@,
            modules[m as int].classes@[c as int],
        ),
        None => r matches Err(e) && e@ == not_found_text(plugin),
    }
}

/// What the lookup of a plugin name in the cache gives.
pub open spec fn looked_up(
    plugin: Seq<char>,
    cache: Option<&ScanCache>,
    r: Result<PluginChoice, String>,
) -> bool {
    match cache {
        None => r matches Err(e) && e@ == no_cache_text(),
        Some(cache) => exists|stems: Vec<Option<String>>, at: Option<(usize, usize)>|
            {
                &&& stems_of(cache.modules@, stems@)
                &&& #[trigger] found(
                    all_lowered_names(cache.modules@),
                    lowered_stems(stems@),
                    lowercase(plugin),
                    at,
                )
                &&& all_known(plugin, cache.modules@, stems@)
                &&& resolved(plugin, cache.modules@, at, r)
            },
    }
}

/// Resolves a plugin name to a class in the cache.
pub fn resolve_plugin(plugin: &str, cache: Option<&ScanCache>) -> (r: Result<PluginChoice, String>)
    ensures
        looked_up(plugin@, cache, r),
{
    let cache: &ScanCache = match cache {
        Some(cache) => cache,
        None => {
            return Err(
                String::from_str(
                    "No plugin cache found. Run 'scan' first, or provide a .vst3 path.",
                ),
            );
        },
    };
    let modules: &Vec<PluginModuleInfo> = &cache.modules;
    let mut stems: Vec<Option<String>> = Vec::new();
    while stems.len() < modules.len()
        invariant
            stems@.len() <= modules@.len(),
            forall|i: int|
                0 <= i < stems@.len() ==> possible_stem(modules@[i].path@, #[trigger] stems@[i]),
        decreases modules@.len() - stems@.len(),
    {
        let stem: Option<String> = path_stem(modules[stems.len()].path.as_str());
        stems.push(stem);
    }
    let at: Option<(usize, usize)> = find_plugin(plugin, modules, &stems);
    assert(found(
        all_lowered_names(cache.modules@),
        lowered_stems(stems@),
        lowercase(plugin@),
        at,
    ));
    match at {
        Some((m, c)) => {
            let class: &PluginClassInfo = &modules[m].classes[c];
            Ok(
                PluginChoice {
                    path: modules[m].path.clone(),
                    class_name: class.name.clone(),
                    cid: class.cid,
                },
            )
        },
        None => {
            let mut message: String = String::from_str("Plugin '");
            message.append(plugin);
            message.append("' not found. Run 'list' to see available plugins.");
            Err(message)
        },
    }
}

/// The class is one of audio modules.
pub open spec fn is_audio_module(class: PluginClassInfo) -> bool {
    class.category@ == "Audio Module Class"@
}

/// The class that is chosen from a module: the first one of audio modules, or else the first one.
pub open spec fn preferred(classes: Seq<PluginClassInfo>, index: int) -> bool {
    &&& 0 <= index < classes.len()
    &&& {
        ||| is_audio_module(classes[index]) && forall|i: int|
            0 <= i < index ==> !is_audio_module(#[trigger] classes[i])
        ||| index == 0 && forall|i: int|
            0 <= i < classes.len() ==> !is_audio_module(#[trigger] classes[i])
    }
}

/// What the choice of a class from a bundle gives.
pub open spec fn loaded_from(
    path: Seq<char>,
    info: PluginModuleInfo,
    r: Result<PluginChoice, String>,
) -> bool {
    if info.classes@.len() == 0 {
        r matches Err(e) && e@ == "No plugin classes found in "@ + path
    } else {
        r matches Ok(choice) && exists|index: int| #[trigger]
            preferred(info.classes@, index) && choice.is_of(path, info.classes@[index])
    }
}

/// Chooses the class to use from a bundle that was given by its path.
pub fn load_plugin_from_path(path: &str, info: &PluginModuleInfo) -> (r: Result<
    PluginChoice,
    String,
>)
    ensures
        loaded_from(path@, *info, r),
{
    let classes: &Vec<PluginClassInfo> = &info.classes;
    if classes.len() == 0 {
        let mut message: String = String::from_str("No plugin classes found in ");
        message.append(path);
        return Err(message);
    }
    let mut chosen: usize = 0;
    let mut i: usize = 0;
    while i < classes.len()
        invariant_except_break
            i <= classes@.len(),
            classes@.len() > 0,
            chosen == 0,
            forall|j: int| 0 <= j < i ==> !is_audio_module(#[trigger] classes@[j]),
        ensures
            preferred(classes@, chosen as int),
        decreases classes@.len() - i,
    {
        if text::same_text(classes[i].category.as_str(), "Audio Module Class") {
            chosen = i;
            break;
        }
        i = i + 1;
    }
    assert(preferred(info.classes@, chosen as int));
    let class: &PluginClassInfo = &classes[chosen];
    Ok(
        PluginChoice {
            path: String::from_str(path),
            class_name: class.name.clone(),
            cid: class.cid,
        },
    )
}

/// What the choice of the class of a plugin gives, given where it is looked for.
pub open spec fn chosen(
    plugin: Seq<char>,
    source: PluginSource,
    bundle: Option<&PluginModuleInfo>,
    cache: Option<&ScanCache>,
    r: Result<PluginChoice, String>,
) -> bool {
    match source {
        PluginSource::Bundle => loaded_from(plugin, *bundle->Some_0, r),
        PluginSource::Cache => looked_up(plugin, cache, r),
    }
}

/// Chooses the class of a plugin, given where it is looked for: a bundle that exists is asked
/// itself, whatever the cache holds and even without a cache; anything else is a name in the cache.
pub fn choose_plugin(
    plugin: &str,
    source: PluginSource,
    bundle: Option<&PluginModuleInfo>,
    cache: Option<&ScanCache>,
) -> (r: Result<PluginChoice, String>)
    requires
        source is Bundle ==> bundle is Some,
    ensures
        chosen(plugin@, source, bundle, cache, r),
{
    match (source, bundle) {
        (PluginSource::Bundle, Some(info)) => load_plugin_from_path(plugin, info),
        _ => resolve_plugin(plugin, cache),
    }
}

/// The number of classes of the modules together.
pub open spec fn class_count(modules: Seq<PluginModuleInfo>) -> nat
    decreases modules.len(),
{
    if modules.len() == 0 {
        0
    } else {
        class_count(modules.drop_last()) + modules.last().classes@.len()
    }
}

/// The first modules have no more classes than all of them.
pub proof fn lemma_class_count_grows(modules: Seq<PluginModuleInfo>, n: int)
    requires
        0 <= n <= modules.len(),
    ensures
        class_count(modules.take(n)) <= class_count(modules),
    decreases modules.len() - n,
{
    if n < modules.len() {
        lemma_class_count_grows(modules, n + 1);
        assert(modules.take(n + 1).drop_last() =~= modules.take(n));
    } else {
        assert(modules.take(n) =~= modules);
    }
}

/// The number of classes of the modules together.
pub fn total_classes(modules: &Vec<PluginModuleInfo>) -> (total: usize)
    requires
        class_count(modules@) <= usize::MAX,
    ensures
        total == class_count(modules@),
{
    let mut total: usize = 0;
    let mut i: usize = 0;
    while i < modules.len()
        invariant
            i <= modules@.len(),
            class_count(modules@) <= usize::MAX,
            total == class_count(modules@.take(i as int)),
        decreases modules@.len() - i,
    {
        proof {
            assert(modules@.take(i + 1).drop_last() =~= modules@.take(i as int));
            lemma_class_count_grows(modules@, i + 1);
        }
        total = total + modules[i].classes.len();
        i = i + 1;
    }
    assert(modules@.take(i as int) =~= modules@);
    total
}

/// A bundle goes before the cache. Where the path of a plugin has the extension of a bundle and
/// something exists there, the class is chosen from that bundle, whatever the cache holds and even
/// without one. Where it has no such extension or nothing exists there, the plugin is looked up in
/// the cache as a name. This holds of every path, whatever its extension is.
pub proof fn lemma_bundle_before_cache(
    plugin: Seq<char>,
    extension: Option<String>,
    exists: bool,
    bundle: PluginModuleInfo,
    cache: Option<&ScanCache>,
    r: Result<PluginChoice, String>,
)
    requires
        chosen(plugin, source_of(extension, exists), Some(&bundle), cache, r),
    ensures
        exists && is_bundle(extension) ==> loaded_from(plugin, bundle, r) && forall|
            other: Option<&ScanCache>,
        | #[trigger]
            chosen(plugin, source_of(extension, exists), Some(&bundle), other, r),
        !(exists && is_bundle(extension)) ==> looked_up(plugin, cache, r),
{
}

/// A query finds one class at most: what is found is fixed by the names, the stems and the query.
pub proof fn lemma_found_unique(
    names: Seq<Seq<Seq<char>>>,
    stems: Seq<Seq<char>>,
    query: Seq<char>,
    a: Option<(usize, usize)>,
    b: Option<(usize, usize)>,
)
    requires
        found(names, stems, query, a),
        found(names, stems, query, b),
    ensures
        a == b,
{
}

/// A class whose name fits is found before any module whose stem fits, and the first such class
/// is the one that is found.
pub proof fn lemma_name_before_stem(
    names: Seq<Seq<Seq<char>>>,
    stems: Seq<Seq<char>>,
    query: Seq<char>,
    module: int,
    class: int,
    r: Option<(usize, usize)>,
)
    requires
        fits_at(names, query, module, class),
        found(names, stems, query, r),
    ensures
        r matches Some((m, c)) && fits_at(names, query, m as int, c as int) && (m < module || (m
            == module && c <= class)),
{
}

/// Every class can be found by its own name, unless the name also occurs in an earlier one.
pub proof fn lemma_found_by_own_name(
    names: Seq<Seq<Seq<char>>>,
    stems: Seq<Seq<char>>,
    module: int,
    class: int,
    r: Option<(usize, usize)>,
)
    requires
        0 <= module < names.len(),
        0 <= class < names[module].len(),
        found(names, stems, names[module][class], r),
    ensures
        r matches Some((m, c)) && (m < module || (m == module && c <= class)) && occurs(
            names[module][class],
            names[m as int][c as int],
        ),
{
    let name = names[module][class];
    assert(name.subrange(0, name.len() as int) =~= name);
    assert(occurs_at(name, name, 0));
    assert(fits_at(names, name, module, class));
}

/// A path that ends in a directory and a name with an extension, with slashes behind or without,
/// has that name as its last one, and its stem and its extension are those of the name.
pub proof fn lemma_named_file(
    directory: Seq<char>,
    stem: Seq<char>,
    extension: Seq<char>,
    slashes: nat,
)
    requires
        directory.len() == 0 || directory.last() == '/',
        stem.len() > 0 && !stem.contains('/'),
        extension.len() > 0 && !extension.contains('/') && !extension.contains('.'),
    ensures
        ({
            let path = directory + stem + seq!['.'] + extension + Seq::new(slashes, |i: int| '/');
            &&& last_name(path) == Some(stem + seq!['.'] + extension)
            &&& stem_in(path) == Some(stem)
            &&& extension_in(path) == Some(extension)
        }),
    decreases slashes,
{
    let name = stem + seq!['.'] + extension;
    let file = directory + stem + seq!['.'] + extension;
    let path = file + Seq::new(slashes, |i: int| '/');
    if slashes > 0 {
        lemma_named_file(directory, stem, extension, (slashes - 1) as nat);
        assert(path.drop_last() =~= file + Seq::new((slashes - 1) as nat, |i: int| '/'));
    } else {
        assert(path =~= file);
        assert(file.last() == extension.last());
        assert(extension.contains(extension.last()));
        assert(trimmed(path) == file);
        assert(file =~= directory + name);
        assert(!name.contains('/'));
        lemma_after_last(directory, name, '/');
        assert(name[stem.len() as int] == '.');
        assert(name != seq!['.']);
        assert(name.last() == extension.last());
        assert(name != seq!['.', '.']);
        lemma_after_last(stem + seq!['.'], extension, '.');
        assert(name.drop_first()[stem.len() - 1] == '.');
        assert(name.take(stem.len() as int) =~= stem);
    }
}

proof fn lemma_after_last(front: Seq<char>, tail: Seq<char>, c: char)
    requires
        front.len() == 0 || front.last() == c,
        !tail.contains(c),
    ensures
        after_last(front + tail, c) == tail,
    decreases tail.len(),
{
    if tail.len() == 0 {
        assert(front + tail =~= front);
    } else {
        let rest = tail.drop_last();
        assert forall|i: int| 0 <= i < rest.len() implies rest[i] != c by {
            assert(tail.contains(tail[i]));
        }
        assert(tail.contains(tail.last()));
        assert((front + tail).drop_last() =~= front + rest);
        lemma_after_last(front, rest, c);
        assert(rest.push(tail.last()) =~= tail);
    }
}

/// One text occurs in another where the other is that text with something in front of it and
/// something behind it, be it nothing.
pub proof fn lemma_occurs(part: Seq<char>, whole: Seq<char>)
    ensures
        occurs(part, whole) <==> exists|front: Seq<char>, back: Seq<char>|
            whole == #[trigger] (front + part + back),
{
    if occurs(part, whole) {
        let at = choose|at: int| #[trigger] occurs_at(part, whole, at);
        let front = whole.take(at);
        let back = whole.skip(at + part.len());
        assert(whole =~= front + whole.subrange(at, at + part.len()) + back);
        assert(whole == front + part + back);
    }
    if exists|front: Seq<char>, back: Seq<char>| whole == #[trigger] (front + part + back) {
        let (front, back) = choose|front: Seq<char>, back: Seq<char>|
            whole == #[trigger] (front + part + back);
        let at = front.len() as int;
        assert(whole.subrange(at, at + part.len()) =~= part);
        assert(occurs_at(part, whole, at));
    }
}

/// A plugin is resolved by name to the first class in the cache, module by module, whose name holds
/// the text that was asked for, whatever the case of either: it is loaded from the path of its
/// module, under its own name and identifier.
pub proof fn lemma_resolved_by_name(
    plugin: Seq<char>,
    cache: ScanCache,
    r: Result<PluginChoice, String>,
    m: int,
    c: int,
)
    requires
        looked_up(plugin, Some(&cache), r),
        0 <= m < cache.modules@.len(),
        0 <= c < cache.modules@[m].classes@.len(),
        occurs(lowercase(plugin), lowercase(cache.modules@[m].classes@[c].name@)),
        forall|i: int, k: int|
            #![trigger cache.modules@[i].classes@[k]]
            0 <= i < cache.modules@.len() && 0 <= k < cache.modules@[i].classes@.len() && occurs(
                lowercase(plugin),
                lowercase(cache.modules@[i].classes@[k].name@),
            ) ==> m < i || (m == i && c <= k),
    ensures
        r matches Ok(choice) && {
            &&& choice.path@ == cache.modules@[m].path@
            &&& choice.class_name@ == cache.modules@[m].classes@[c].name@
            &&& choice.cid == cache.modules@[m].classes@[c].cid
        },
{
    let modules = cache.modules@;
    let names = all_lowered_names(modules);
    let (stems, at) = choose|stems: Vec<Option<String>>, at: Option<(usize, usize)>|
        {
            &&& stems_of(modules, stems@)
            &&& #[trigger] found(names, lowered_stems(stems@), lowercase(plugin), at)
            &&& all_known(plugin, modules, stems@)
            &&& resolved(plugin, modules, at, r)
        };
    assert(names[m][c] == lowercase(modules[m].classes@[c].name@));
    assert(fits_at(names, lowercase(plugin), m, c));
    let (fm, fc) = at->Some_0;
    assert(fits_at(names, lowercase(plugin), fm as int, fc as int));
    assert(names[fm as int][fc as int] == lowercase(modules[fm as int].classes@[fc as int].name@));
    assert(m < fm || (m == fm && c <= fc));
}

/// Where no class name holds the text that was asked for, a plugin is resolved by the file names of
/// the modules: to the first class of the first module that has any and whose stem holds the text.
/// Where none does, it is not found.
pub proof fn lemma_resolved_by_stem(
    plugin: Seq<char>,
    cache: ScanCache,
    r: Result<PluginChoice, String>,
    m: int,
)
    requires
        looked_up(plugin, Some(&cache), r),
        forall|i: int|
            0 <= i < cache.modules@.len() ==> is_plain_path(#[trigger] cache.modules@[i].path@)
                && stem_in(cache.modules@[i].path@) is Some,
        forall|i: int, k: int|
            #![trigger cache.modules@[i].classes@[k]]
            0 <= i < cache.modules@.len() && 0 <= k < cache.modules@[i].classes@.len() ==> !occurs(
                lowercase(plugin),
                lowercase(cache.modules@[i].classes@[k].name@),
            ),
        0 <= m <= cache.modules@.len(),
        forall|i: int|
            #![trigger cache.modules@[i]]
            0 <= i < m ==> cache.modules@[i].classes@.len() == 0 || !occurs(
                lowercase(plugin),
                lowercase(stem_in(cache.modules@[i].path@)->Some_0),
            ),
        m < cache.modules@.len() ==> cache.modules@[m].classes@.len() > 0 && occurs(
            lowercase(plugin),
            lowercase(stem_in(cache.modules@[m].path@)->Some_0),
        ),
    ensures
        m < cache.modules@.len() ==> (r matches Ok(choice) && {
            &&& choice.path@ == cache.modules@[m].path@
            &&& choice.class_name@ == cache.modules@[m].classes@[0].name@
            &&& choice.cid == cache.modules@[m].classes@[0].cid
        }),
        m == cache.modules@.len() ==> (r matches Err(e) && e@ == "Plugin '"@ + plugin
            + "' not found. Run 'list' to see available plugins."@),
{
    let modules = cache.modules@;
    let names = all_lowered_names(modules);
    let query = lowercase(plugin);
    let (stems, at) = choose|stems: Vec<Option<String>>, at: Option<(usize, usize)>|
        {
            &&& stems_of(modules, stems@)
            &&& #[trigger] found(names, lowered_stems(stems@), query, at)
            &&& all_known(plugin, modules, stems@)
            &&& resolved(plugin, modules, at, r)
        };
    let lowered = lowered_stems(stems@);
    assert forall|i: int, k: int| !#[trigger] fits_at(names, query, i, k) by {
        if 0 <= i < names.len() && 0 <= k < names[i].len() {
            assert(names[i][k] == lowercase(modules[i].classes@[k].name@));
        }
    }
    assert forall|i: int| 0 <= i < modules.len() implies #[trigger] lowered[i] == lowercase(
        stem_in(modules[i].path@)->Some_0,
    ) && names[i].len() == modules[i].classes@.len() by {
        assert(possible_stem(modules[i].path@, stems@[i]));
        assert(is_plain_path(modules[i].path@));
    }
    assert forall|i: int| i < m implies !#[trigger] stem_fits_at(names, lowered, query, i) by {
        if 0 <= i < modules.len() {
            let module = modules[i];
            assert(lowered[i] == lowercase(stem_in(modules[i].path@)->Some_0));
        }
    }
    if m < modules.len() {
        assert(lowered[m] == lowercase(stem_in(modules[m].path@)->Some_0));
        assert(stem_fits_at(names, lowered, query, m));
    } else {
        if let Some((fm, fc)) = at {
            assert(stem_fits_at(names, lowered, query, fm as int));
        }
    }
}

/// Without a cache a name cannot be resolved, and the answer says what to do.
pub proof fn lemma_no_cache(plugin: Seq<char>, r: Result<PluginChoice, String>)
    requires
        looked_up(plugin, None, r),
    ensures
        r matches Err(e) && e@
            == "No plugin cache found. Run 'scan' first, or provide a .vst3 path."@,
{
}

/// From a bundle the first class of audio modules is taken, and where there is none of those the
/// first class of all. A bundle without classes is refused by its path.
pub proof fn lemma_loaded(
    path: Seq<char>,
    info: PluginModuleInfo,
    r: Result<PluginChoice, String>,
    c: int,
)
    requires
        loaded_from(path, info, r),
        0 <= c <= info.classes@.len(),
        forall|k: int|
            0 <= k < c ==> (#[trigger] info.classes@[k]).category@ != "Audio Module Class"@,
        c < info.classes@.len() ==> info.classes@[c].category@ == "Audio Module Class"@,
    ensures
        info.classes@.len() == 0 ==> (r matches Err(e) && e@ == "No plugin classes found in "@
            + path),
        info.classes@.len() > 0 ==> (r matches Ok(choice) && {
            let class = if c < info.classes@.len() {
                info.classes@[c]
            } else {
                info.classes@[0]
            };
            choice.path@ == path && choice.class_name@ == class.name@ && choice.cid == class.cid
        }),
{
    if info.classes@.len() > 0 {
        let index = choose|index: int| #[trigger]
            preferred(info.classes@, index) && r->Ok_0.is_of(path, info.classes@[index]);
        let class = info.classes@[index];
        if c < info.classes@.len() {
            assert(is_audio_module(info.classes@[c]));
            if index < c {
                assert(!is_audio_module(info.classes@[index]));
            }
        } else {
            assert(!is_audio_module(info.classes@[index]));
        }
    }
}

/// A plain path to a file with a stem and an extension is that of a bundle exactly where the
/// extension is `vst3`, with slashes behind or without.
pub proof fn lemma_known_bundle(
    directory: Seq<char>,
    stem: Seq<char>,
    extension: Seq<char>,
    slashes: nat,
)
    requires
        directory.len() == 0 || directory.last() == '/',
        stem.len() > 0 && !stem.contains('/'),
        extension.len() > 0 && !extension.contains('/') && !extension.contains('.'),
        is_plain_path(directory + stem + seq!['.'] + extension + Seq::new(slashes, |i: int| '/')),
    ensures
        known_bundle(directory + stem + seq!['.'] + extension + Seq::new(slashes, |i: int| '/'))
            == Some(extension == "vst3"@),
{
    lemma_named_file(directory, stem, extension, slashes);
}

/// An ASCII text in lower case has the same length, its letters from A to Z are those that stand 32
/// further on, and all else in it is as it was.
pub proof fn lemma_ascii_lowered(s: Seq<char>, i: int)
    requires
        0 <= i < s.len(),
    ensures
        ascii_lowered(s).len() == s.len(),
        'A' <= s[i] <= 'Z' ==> ascii_lowered(s)[i] as int == s[i] as int + 32,
        !('A' <= s[i] <= 'Z') ==> ascii_lowered(s)[i] == s[i],
{
}

/// The contents of lists of strings are those of their strings, each in its place.
pub proof fn lemma_text_lists(lists: Seq<Vec<String>>, i: int, j: int)
    requires
        0 <= i < lists.len(),
        0 <= j < lists[i]@.len(),
    ensures
        text_lists(lists).len() == lists.len(),
        text_lists(lists)[i].len() == lists[i]@.len(),
        text_lists(lists)[i][j] == lists[i]@[j]@,
{
}

/// What is found for a query, given names and stems: the first class, module by module, whose name
/// holds the query; without one, the first class of the first module that has any and whose stem
/// holds it; and without that, nothing.
pub proof fn lemma_found(
    names: Seq<Seq<Seq<char>>>,
    stems: Seq<Seq<char>>,
    query: Seq<char>,
    r: Option<(usize, usize)>,
)
    requires
        found(names, stems, query, r),
        stems.len() == names.len(),
    ensures
        r matches Some((m, c)) ==> {
            &&& m < names.len() && c < names[m as int].len()
            &&& forall|i: int, k: int|
                #![trigger names[i][k]]
                0 <= i < names.len() && 0 <= k < names[i].len() && (i < m || (i == m && k < c))
                    ==> !occurs(query, names[i][k])
            &&& !occurs(query, names[m as int][c as int]) ==> {
                &&& c == 0
                &&& occurs(query, stems[m as int])
                &&& forall|i: int, k: int|
                    #![trigger names[i][k]]
                    0 <= i < names.len() && 0 <= k < names[i].len() ==> !occurs(
                        query,
                        names[i][k],
                    )
                &&& forall|i: int|
                    #![trigger stems[i]]
                    0 <= i < m && names[i].len() > 0 ==> !occurs(query, stems[i])
            }
        },
        r is None ==> {
            &&& forall|i: int, k: int|
                #![trigger names[i][k]]
                0 <= i < names.len() && 0 <= k < names[i].len() ==> !occurs(query, names[i][k])
            &&& forall|i: int|
                #![trigger stems[i]]
                0 <= i < names.len() && names[i].len() > 0 ==> !occurs(query, stems[i])
        },
{
    assert forall|i: int, k: int|
        #![trigger names[i][k]]
        0 <= i < names.len() && 0 <= k < names[i].len() implies fits_at(names, query, i, k)
        == occurs(query, names[i][k]) by {}
    assert forall|i: int|
        #![trigger stems[i]]
        0 <= i < names.len() && names[i].len() > 0 implies stem_fits_at(names, stems, query, i)
        == occurs(query, stems[i]) by {}
}

} // verus!
