//! Configuration: desktop settings and named ROM paths, with sensible defaults.
use vstd::prelude::*;

verus! {

/// Named ROM paths: a table from names to paths. The first entry of a name
/// counts.
#[derive(Debug, Clone)]
pub struct RomTable {
    /// The entries, as (name, path).
    pub entries: Vec<(String, String)>,
}

/// The position of the first entry of a name at or after `from`, or the length.
pub open spec fn first_entry(entries: Seq<(String, String)>, name: Seq<char>, from: int) -> int
    decreases entries.len() - from,
{
    if from < 0 || from >= entries.len() {
        entries.len() as int
    } else if entries[from].0@ == name {
        from
    } else {
        first_entry(entries, name, from + 1)
    }
}

impl View for RomTable {
    type V = Map<Seq<char>, Seq<char>>;

    open spec fn view(&self) -> Map<Seq<char>, Seq<char>> {
        Map::new(
            |name: Seq<char>| first_entry(self.entries@, name, 0) < self.entries@.len(),
            |name: Seq<char>| self.entries@[first_entry(self.entries@, name, 0)].1@,
        )
    }
}

/// The first entry of a name is what it says: it has the name, and none before it
/// has.
proof fn lemma_first_entry(entries: Seq<(String, String)>, name: Seq<char>, from: int)
    requires
        0 <= from <= entries.len(),
    ensures
        ({
            let k = first_entry(entries, name, from);
            &&& from <= k <= entries.len()
            &&& k < entries.len() ==> entries[k].0@ == name
            &&& forall|j: int| from <= j < k ==> entries[j].0@ != name
        }),
    decreases entries.len() - from,
{
    if from < entries.len() && entries[from].0@ != name {
        lemma_first_entry(entries, name, from + 1);
    }
}

/// An entry with the name and none before it is the first.
proof fn lemma_is_first_entry(entries: Seq<(String, String)>, name: Seq<char>, from: int, k: int)
    requires
        0 <= from <= k <= entries.len(),
        k < entries.len() ==> entries[k].0@ == name,
        forall|j: int| from <= j < k ==> entries[j].0@ != name,
    ensures
        first_entry(entries, name, from) == k,
    decreases k - from,
{
    if from < k {
        lemma_is_first_entry(entries, name, from + 1, k);
    }
}

impl RomTable {
    /// Creates an empty table.
    #[must_use]
    pub fn new() -> (r: Self)
        ensures
            r@ == Map::<Seq<char>, Seq<char>>::empty(),
    {
        let r = RomTable { entries: Vec::new() };
        assert(r@ =~= Map::<Seq<char>, Seq<char>>::empty());
        r
    }

    /// The position of the first entry of a name, or the number of entries.
    fn find(&self, name: &str) -> (r: usize)
        ensures
            r == first_entry(self.entries@, name@, 0),
            r <= self.entries@.len(),
    {
        let mut i: usize = 0;
        while i < self.entries.len()
            invariant
                i <= self.entries@.len(),
                forall|j: int| 0 <= j < i ==> self.entries@[j].0@ != name@,
            decreases self.entries@.len() - i,
        {
            if same_text(self.entries[i].0.as_str(), name) {
                proof {
                    lemma_is_first_entry(self.entries@, name@, 0, i as int);
                }
                return i;
            }
            i = i + 1;
        }
        proof {
            lemma_is_first_entry(self.entries@, name@, 0, i as int);
        }
        i
    }

    /// Looks a name up.
    #[must_use]
    pub fn get(&self, name: &str) -> (r: Option<&String>)
        ensures
            match r {
                Some(path) => self@.dom().contains(name@) && path@ == self@[name@],
                None => !self@.dom().contains(name@),
            },
    {
        let i: usize = self.find(name);
        if i < self.entries.len() {
            Some(&self.entries[i].1)
        } else {
            None
        }
    }

    /// Sets the path of a name.
    pub fn insert(&mut self, name: String, path: String)
        ensures
            final(self)@ == old(self)@.insert(name@, path@),
    {
        let i: usize = self.find(name.as_str());
        let ghost before = self.entries@;
        let ghost key = name@;
        let ghost value = path@;
        if i < self.entries.len() {
            self.entries[i] = (name, path);
        } else {
            self.entries.push((name, path));
        }
        proof {
            let after = self.entries@;
            assert forall|n: Seq<char>| first_entry(after, n, 0) == if n == key {
                i as int
            } else if first_entry(before, n, 0) == before.len() {
                after.len() as int
            } else {
                first_entry(before, n, 0)
            } by {
                lemma_first_entry(before, n, 0);
                lemma_first_entry(before, key, 0);
                let k = first_entry(before, n, 0);
                if n == key {
                    lemma_is_first_entry(after, n, 0, i as int);
                } else if k == before.len() {
                    lemma_is_first_entry(after, n, 0, after.len() as int);
                } else {
                    lemma_is_first_entry(after, n, 0, k);
                }
            }
            assert forall|n: Seq<char>| self@.dom().contains(n) == (n == key
                || old(self)@.dom().contains(n)) by {
                lemma_first_entry(before, n, 0);
                lemma_first_entry(after, n, 0);
            }
            assert forall|n: Seq<char>| self@.dom().contains(n) implies #[trigger] self@[n] == old(
                self,
            )@.insert(key, value)[n] by {
                lemma_first_entry(before, n, 0);
                lemma_first_entry(before, key, 0);
                let k = first_entry(after, n, 0);
                assert(k < after.len());
                assert(self@[n] == after[k].1@);
                if n != key {
                    assert(k == first_entry(before, n, 0));
                    assert(after[k] == before[k]);
                    assert(old(self)@[n] == before[k].1@);
                }
            }
            assert(self@ =~= old(self)@.insert(key, value));
        }
    }
}

/// Whether two texts are equal.
fn same_text(a: &str, b: &str) -> (r: bool)
    ensures
        r == (a@ == b@),
{
    let n: usize = a.unicode_len();
    if n != b.unicode_len() {
        return false;
    }
    let mut i: usize = 0;
    while i < n
        invariant
            i <= n,
            n == a@.len(),
            n == b@.len(),
            forall|j: int| 0 <= j < i ==> a@[j] == b@[j],
        decreases n - i,
    {
        if a.get_char(i) != b.get_char(i) {
            return false;
        }
        i = i + 1;
    }
    assert(a@ =~= b@);
    true
}

/// Desktop frontend configuration.
#[derive(Debug, Clone)]
pub struct DesktopConfig {
    /// Path to the ROM file.
    pub rom_path: String,
    /// Window scale factor.
    pub window_scale: u32,
    /// Enable audio output.
    pub audio_enabled: bool,
    /// Step mode: "frame", "cpu", or "scanline".
    pub step_mode: String,
}

impl DesktopConfig {
    /// The default settings.
    pub open spec fn is_default(self) -> bool {
        &&& self.rom_path@.len() == 0
        &&& self.window_scale == 3
        &&& !self.audio_enabled
        &&& self.step_mode@ == "frame"@
    }
}

impl Default for DesktopConfig {
    fn default() -> (r: Self)
        ensures
            r.is_default(),
    {
        DesktopConfig {
            rom_path: String::new(),
            window_scale: default_scale(),
            audio_enabled: false,
            step_mode: default_step_mode(),
        }
    }
}

/// The default window scale factor.
#[must_use]
pub fn default_scale() -> (r: u32)
    ensures
        r == 3,
{
    3
}

/// The default step mode.
#[must_use]
pub fn default_step_mode() -> (r: String)
    ensures
        r@ == "frame"@,
{
    "frame".to_owned()
}

/// Top-level configuration.
#[derive(Debug, Clone)]
pub struct GenesisConfig {
    /// Desktop frontend settings.
    pub desktop: DesktopConfig,
    /// Named ROM paths.
    pub roms: RomTable,
}

impl Default for GenesisConfig {
    fn default() -> (r: Self)
        ensures
            r.desktop.is_default(),
            r.roms@ == Map::<Seq<char>, Seq<char>>::empty(),
    {
        GenesisConfig { desktop: DesktopConfig::default(), roms: RomTable::new() }
    }
}

/// What a configuration file says of the desktop frontend.
#[derive(Debug)]
pub struct DesktopSection {
    /// Path to the ROM file.
    pub rom_path: Option<String>,
    /// Window scale factor.
    pub window_scale: Option<u32>,
    /// Enable audio output.
    pub audio_enabled: Option<bool>,
    /// Step mode.
    pub step_mode: Option<String>,
}

/// What a configuration file says.
#[derive(Debug)]
pub struct ConfigFile {
    /// Desktop frontend settings.
    pub desktop: Option<DesktopSection>,
    /// Named ROM paths.
    pub roms: Option<RomTable>,
}

/// Settings are those of a section of the file: what it leaves out takes its
/// default.
pub open spec fn section_read(s: DesktopSection, d: DesktopConfig) -> bool {
    &&& match s.rom_path {
        Some(path) => d.rom_path@ == path@,
        None => d.rom_path@.len() == 0,
    }
    &&& d.window_scale == match s.window_scale {
        Some(scale) => scale,
        None => 3,
    }
    &&& d.audio_enabled == (s.audio_enabled == Some(true))
    &&& match s.step_mode {
        Some(mode) => d.step_mode@ == mode@,
        None => d.step_mode@ == "frame"@,
    }
}

impl DesktopConfig {
    /// The settings of a section of the file.
    #[must_use]
    pub fn from_section(section: DesktopSection) -> (r: Self)
        ensures
            section_read(section, r),
    {
        DesktopConfig {
            rom_path: match section.rom_path {
                Some(path) => path,
                None => String::new(),
            },
            window_scale: match section.window_scale {
                Some(scale) => scale,
                None => default_scale(),
            },
            audio_enabled: match section.audio_enabled {
                Some(enabled) => enabled,
                None => false,
            },
            step_mode: match section.step_mode {
                Some(mode) => mode,
                None => default_step_mode(),
            },
        }
    }
}

impl GenesisConfig {
    /// The configuration of a file: what it leaves out takes its default.
    #[must_use]
    pub fn from_file(file: ConfigFile) -> (r: Self)
        ensures
            match file.desktop {
                Some(section) => section_read(section, r.desktop),
                None => r.desktop.is_default(),
            },
            r.roms@ == match file.roms {
                Some(roms) => roms@,
                None => Map::<Seq<char>, Seq<char>>::empty(),
            },
    {
        GenesisConfig {
            desktop: match file.desktop {
                Some(section) => DesktopConfig::from_section(section),
                None => DesktopConfig::default(),
            },
            roms: match file.roms {
                Some(roms) => roms,
                None => RomTable::new(),
            },
        }
    }

    /// The configuration that was loaded, or the defaults where none could be.
    #[must_use]
    pub fn load_or_default(loaded: Option<GenesisConfig>) -> (r: Self)
        ensures
            loaded matches Some(config) ==> r == config,
            loaded is None ==> r.desktop.is_default() && r.roms@ == Map::<
                Seq<char>,
                Seq<char>,
            >::empty(),
    {
        match loaded {
            Some(config) => config,
            None => GenesisConfig::default(),
        }
    }

    /// Resolves a ROM path from a name or direct path.
    #[must_use]
    pub fn resolve_rom(&self, name_or_path: &str) -> (r: String)
        ensures
            r@ == if self.roms@.dom().contains(name_or_path@) {
                self.roms@[name_or_path@]
            } else {
                name_or_path@
            },
    {
        match self.roms.get(name_or_path) {
            Some(path) => path.clone(),
            None => name_or_path.to_owned(),
        }
    }
}

/// What a section leaves out takes its default (no ROM, scale 3, no sound, whole
/// frames), and what it names is taken as it is.
pub proof fn law_section_defaults(s: DesktopSection, d: DesktopConfig)
    requires
        section_read(s, d),
    ensures
        s.rom_path is None ==> d.rom_path@ == Seq::<char>::empty(),
        s.window_scale is None ==> d.window_scale == 3,
        s.audio_enabled is None ==> !d.audio_enabled,
        s.step_mode is None ==> d.step_mode@ == seq!['f', 'r', 'a', 'm', 'e'],
        s.rom_path is Some ==> d.rom_path@ == (s.rom_path->0)@,
        s.window_scale is Some ==> d.window_scale == s.window_scale->0,
        s.audio_enabled is Some ==> d.audio_enabled == s.audio_enabled->0,
        s.step_mode is Some ==> d.step_mode@ == (s.step_mode->0)@,
{
    reveal_strlit("frame");
    assert("frame"@ =~= seq!['f', 'r', 'a', 'm', 'e']);
}

} // verus!
