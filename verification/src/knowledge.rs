//! The table of known applications: what a user may call an application
//! (in Russian or in English) and the package that provides it.
use vstd::prelude::*;
use crate::text::{decimal, decimal_text, lemma_decimal_injective};

verus! {

/// A map from names to packages in which every name occurs once.
pub struct KnowledgeBase {
    names: Vec<String>,
    packages: Vec<String>,
}

impl KnowledgeBase {
    /// The two lists line up and no name occurs twice.
    #[verifier::type_invariant]
    spec fn wf(&self) -> bool {
        &&& self.names.len() == self.packages.len()
        &&& forall|i: int, j: int|
            0 <= i < j < self.names.len() ==> #[trigger] self.names@[i]@ != #[trigger] self.names@[j]@
    }

    spec fn has_name_at(&self, name: Seq<char>, i: int) -> bool {
        0 <= i < self.names.len() && self.names@[i]@ == name
    }

    proof fn lemma_entry(&self, i: int)
        requires
            self.wf(),
            0 <= i < self.names.len(),
        ensures
            self@.contains_key(self.names@[i]@),
            self@[self.names@[i]@] == self.packages@[i]@,
    {
        let name = self.names@[i]@;
        assert(self.has_name_at(name, i));
        let j = choose|j: int| self.has_name_at(name, j);
        assert(self.has_name_at(name, j));
        if j < i {
            assert(self.names@[j]@ != self.names@[i]@);
        } else if i < j {
            assert(self.names@[i]@ != self.names@[j]@);
        }
    }

    /// An empty table.
    pub fn new() -> (kb: KnowledgeBase)
        ensures
            kb@ == Map::<Seq<char>, Seq<char>>::empty(),
    {
        let kb = KnowledgeBase { names: Vec::new(), packages: Vec::new() };
        assert(kb@ =~= Map::<Seq<char>, Seq<char>>::empty());
        kb
    }

    /// Where `name` stands in the table, if it does.
    fn position(&self, name: &str) -> (r: Option<usize>)
        ensures
            r matches Some(i) ==> i < self.names.len() && self.names@[i as int]@ == name@,
            r is None ==> forall|i: int| 0 <= i < self.names.len() ==> self.names@[i]@ != name@,
    {
        let wanted = String::from_str(name);
        let mut i: usize = 0;
        while i < self.names.len()
            invariant
                i <= self.names.len(),
                wanted@ == name@,
                forall|j: int| 0 <= j < i ==> self.names@[j]@ != name@,
            decreases self.names.len() - i,
        {
            if self.names[i] == wanted {
                return Some(i);
            }
            i = i + 1;
        }
        None
    }

    /// The package for `name`, if the table has one.
    pub fn get(&self, name: &str) -> (r: Option<String>)
        ensures
            r is Some <==> self@.contains_key(name@),
            r matches Some(p) ==> p@ == self@[name@],
    {
        proof {
            use_type_invariant(self);
        }
        match self.position(name) {
            Some(i) => {
                proof {
                    self.lemma_entry(i as int);
                }
                Some(self.packages[i].clone())
            },
            None => {
                assert(!self@.contains_key(name@)) by {
                    if self@.contains_key(name@) {
                        let j = choose|j: int| self.has_name_at(name@, j);
                        assert(self.names@[j]@ != name@);
                    }
                }
                None
            },
        }
    }

    /// The package for an application name, in any letter case.
    pub fn lookup(&self, query: &str) -> (r: Option<String>)
        ensures
            r is Some <==> self@.contains_key(lowercase(query@)),
            r matches Some(p) ==> p@ == self@[lowercase(query@)],
    {
        let q = to_lowercase(query);
        self.get(q.as_str())
    }

    /// Sets the package for `name`, replacing the one it had.
    pub fn insert(&mut self, name: String, package: String)
        ensures
            final(self)@ == old(self)@.insert(name@, package@),
    {
        let mut taken = KnowledgeBase::new();
        std::mem::swap(&mut taken, self);
        proof {
            use_type_invariant(&taken);
        }
        let ghost before = taken;
        let found = taken.position(name.as_str());
        let KnowledgeBase { mut names, mut packages } = taken;
        match found {
            Some(i) => {
                packages.set(i, package);
                let rebuilt = KnowledgeBase { names, packages };
                assert forall|k: Seq<char>| #[trigger] rebuilt@.contains_key(k) implies before@.insert(
                    name@,
                    package@,
                ).contains_key(k) by {
                    let j = choose|j: int| rebuilt.has_name_at(k, j);
                    assert(before.has_name_at(k, j));
                }
                assert forall|k: Seq<char>| #[trigger]
                    before@.insert(name@, package@).contains_key(k) implies rebuilt@.contains_key(k)
                    && rebuilt@[k] == before@.insert(name@, package@)[k] by {
                    if k == name@ {
                        rebuilt.lemma_entry(i as int);
                    } else {
                        let j = choose|j: int| before.has_name_at(k, j);
                        assert(before.has_name_at(k, j));
                        before.lemma_entry(j);
                        assert(j != i);
                        rebuilt.lemma_entry(j);
                    }
                }
                assert(rebuilt@ =~= before@.insert(name@, package@));
                *self = rebuilt;
            },
            None => {
                let ghost n = before.names.len() as int;
                names.push(name);
                packages.push(package);
                assert(names@[n]@ == name@);
                assert forall|a: int, b: int|
                    0 <= a < b < names.len() implies #[trigger] names@[a]@ != #[trigger] names@[b]@ by {
                    if b < n {
                        assert(before.names@[a]@ != before.names@[b]@);
                    } else {
                        assert(before.names@[a]@ != name@);
                    }
                }
                let rebuilt = KnowledgeBase { names, packages };
                assert forall|k: Seq<char>| #[trigger] rebuilt@.contains_key(k) implies before@.insert(
                    name@,
                    package@,
                ).contains_key(k) by {
                    let j = choose|j: int| rebuilt.has_name_at(k, j);
                    if j < n {
                        assert(before.has_name_at(k, j));
                    }
                }
                assert forall|k: Seq<char>| #[trigger]
                    before@.insert(name@, package@).contains_key(k) implies rebuilt@.contains_key(k)
                    && rebuilt@[k] == before@.insert(name@, package@)[k] by {
                    if k == name@ {
                        rebuilt.lemma_entry(n);
                    } else {
                        let j = choose|j: int| before.has_name_at(k, j);
                        assert(before.has_name_at(k, j));
                        before.lemma_entry(j);
                        assert(rebuilt.names@[j] == before.names@[j]);
                        rebuilt.lemma_entry(j);
                    }
                }
                assert(rebuilt@ =~= before@.insert(name@, package@));
                *self = rebuilt;
            },
        }
    }
}

impl View for KnowledgeBase {
    type V = Map<Seq<char>, Seq<char>>;

    /// The package of every name in the table.
    closed spec fn view(&self) -> Map<Seq<char>, Seq<char>> {
        Map::new(
            |k: Seq<char>| exists|i: int| self.has_name_at(k, i),
            |k: Seq<char>| self.packages@[choose|i: int| self.has_name_at(k, i)]@,
        )
    }
}

/// Names, mostly in Russian (first part).
pub open spec fn named_group_1(m: Map<Seq<char>, Seq<char>>) -> Map<Seq<char>, Seq<char>> {
    m
        .insert("телеграм"@, "telegram-desktop"@)
        .insert("telegram"@, "telegram-desktop"@)
        .insert("браузер"@, "firefox"@)
        .insert("firefox"@, "firefox"@)
        .insert("калькулятор"@, "gnome-calculator"@)
        .insert("терминал"@, "alacritty"@)
        .insert("alacritty"@, "alacritty"@)
        .insert("файловый менеджер"@, "thunar"@)
        .insert("проводник"@, "thunar"@)
        .insert("редактор"@, "gedit"@)
        .insert("блокнот"@, "gedit"@)
        .insert("код"@, "visual-studio-code-bin"@)
        .insert("vscode"@, "visual-studio-code-bin"@)
        .insert("дискорд"@, "discord"@)
        .insert("discord"@, "discord"@)
        .insert("спотифай"@, "spotify"@)
        .insert("spotify"@, "spotify"@)
        .insert("видеоплеер"@, "mpv"@)
        .insert("mpv"@, "mpv"@)
        .insert("аудиоплеер"@, "audacious"@)
        .insert("образ диска"@, "balena-etcher"@)
        .insert("архиватор"@, "file-roller"@)
        .insert("скриншот"@, "flameshot"@)
        .insert("flameshot"@, "flameshot"@)
        .insert("запись экрана"@, "obs-studio"@)
}

/// Names, mostly in Russian (second part).
pub open spec fn named_group_2(m: Map<Seq<char>, Seq<char>>) -> Map<Seq<char>, Seq<char>> {
    m
        .insert("obs"@, "obs-studio"@)
        .insert("гит"@, "git"@)
        .insert("git"@, "git"@)
        .insert("докер"@, "docker"@)
        .insert("docker"@, "docker"@)
        .insert("компас"@, "libreoffice"@)
        .insert("офис"@, "libreoffice-fresh"@)
        .insert("почта"@, "thunderbird"@)
        .insert("thunderbird"@, "thunderbird"@)
        .insert("торрент"@, "qbittorrent"@)
        .insert("qbittorrent"@, "qbittorrent"@)
        .insert("steam"@, "steam"@)
        .insert("стим"@, "steam"@)
        .insert("рисование"@, "gimp"@)
        .insert("gimp"@, "gimp"@)
        .insert("инкскейп"@, "inkscape"@)
        .insert("блюпури"@, "blueman"@)
        .insert("блютуз"@, "blueman"@)
        .insert("принтер"@, "system-config-printer"@)
        .insert("виртуалка"@, "virt-manager"@)
        .insert("virtualbox"@, "virtualbox"@)
        .insert("номус"@, "qemu-desktop"@)
        .insert("чат"@, "pidgin"@)
        .insert("матрица"@, "element-desktop"@)
        .insert("элемент"@, "element-desktop"@)
}

/// Names, mostly in Russian (third part).
pub open spec fn named_group_3(m: Map<Seq<char>, Seq<char>>) -> Map<Seq<char>, Seq<char>> {
    m
        .insert("система"@, "gnome-system-monitor"@)
        .insert("монитор"@, "htop"@)
        .insert("htop"@, "htop"@)
        .insert("нейросеть"@, "ollama"@)
        .insert("ollama"@, "ollama"@)
        .insert("blender"@, "blender"@)
        .insert("блендер"@, "blender"@)
        .insert("krita"@, "krita"@)
        .insert("крита"@, "krita"@)
        .insert("darktable"@, "darktable"@)
        .insert("темная комната"@, "darktable"@)
        .insert("rhythmbox"@, "rhythmbox"@)
        .insert("ритмбокс"@, "rhythmbox"@)
        .insert("vlc"@, "vlc"@)
        .insert("вэлси"@, "vlc"@)
        .insert("evince"@, "evince"@)
        .insert("пдф"@, "evince"@)
        .insert("gparted"@, "gparted"@)
        .insert("разметка диска"@, "gparted"@)
        .insert("gnome-disks"@, "gnome-disk-utility"@)
        .insert("диски"@, "gnome-disk-utility"@)
}

/// English synonyms (first part).
pub open spec fn named_group_4(m: Map<Seq<char>, Seq<char>>) -> Map<Seq<char>, Seq<char>> {
    m
        .insert("browser"@, "firefox"@)
        .insert("calculator"@, "gnome-calculator"@)
        .insert("terminal"@, "alacritty"@)
        .insert("file manager"@, "thunar"@)
        .insert("editor"@, "gedit"@)
        .insert("code"@, "visual-studio-code-bin"@)
        .insert("discord"@, "discord"@)
        .insert("spotify"@, "spotify"@)
        .insert("video player"@, "mpv"@)
        .insert("audio player"@, "audacious"@)
        .insert("screenshot"@, "flameshot"@)
        .insert("screen recorder"@, "obs-studio"@)
        .insert("git"@, "git"@)
        .insert("docker"@, "docker"@)
        .insert("office"@, "libreoffice-fresh"@)
}

/// English synonyms (second part).
pub open spec fn named_group_5(m: Map<Seq<char>, Seq<char>>) -> Map<Seq<char>, Seq<char>> {
    m
        .insert("email"@, "thunderbird"@)
        .insert("torrent"@, "qbittorrent"@)
        .insert("steam"@, "steam"@)
        .insert("drawing"@, "gimp"@)
        .insert("bluetooth"@, "blueman"@)
        .insert("printer"@, "system-config-printer"@)
        .insert("virtual machine"@, "virt-manager"@)
        .insert("chat"@, "pidgin"@)
        .insert("matrix"@, "element-desktop"@)
        .insert("system monitor"@, "gnome-system-monitor"@)
        .insert("neural"@, "ollama"@)
        .insert("blender"@, "blender"@)
        .insert("krita"@, "krita"@)
        .insert("pdf"@, "evince"@)
        .insert("disk"@, "gnome-disk-utility"@)
}

fn add_named_group_1(kb: &mut KnowledgeBase)
    ensures
        final(kb)@ == named_group_1(old(kb)@),
{
    kb.insert(String::from_str("телеграм"), String::from_str("telegram-desktop"));
    kb.insert(String::from_str("telegram"), String::from_str("telegram-desktop"));
    kb.insert(String::from_str("браузер"), String::from_str("firefox"));
    kb.insert(String::from_str("firefox"), String::from_str("firefox"));
    kb.insert(String::from_str("калькулятор"), String::from_str("gnome-calculator"));
    kb.insert(String::from_str("терминал"), String::from_str("alacritty"));
    kb.insert(String::from_str("alacritty"), String::from_str("alacritty"));
    kb.insert(String::from_str("файловый менеджер"), String::from_str("thunar"));
    kb.insert(String::from_str("проводник"), String::from_str("thunar"));
    kb.insert(String::from_str("редактор"), String::from_str("gedit"));
    kb.insert(String::from_str("блокнот"), String::from_str("gedit"));
    kb.insert(String::from_str("код"), String::from_str("visual-studio-code-bin"));
    kb.insert(String::from_str("vscode"), String::from_str("visual-studio-code-bin"));
    kb.insert(String::from_str("дискорд"), String::from_str("discord"));
    kb.insert(String::from_str("discord"), String::from_str("discord"));
    kb.insert(String::from_str("спотифай"), String::from_str("spotify"));
    kb.insert(String::from_str("spotify"), String::from_str("spotify"));
    kb.insert(String::from_str("видеоплеер"), String::from_str("mpv"));
    kb.insert(String::from_str("mpv"), String::from_str("mpv"));
    kb.insert(String::from_str("аудиоплеер"), String::from_str("audacious"));
    kb.insert(String::from_str("образ диска"), String::from_str("balena-etcher"));
    kb.insert(String::from_str("архиватор"), String::from_str("file-roller"));
    kb.insert(String::from_str("скриншот"), String::from_str("flameshot"));
    kb.insert(String::from_str("flameshot"), String::from_str("flameshot"));
    kb.insert(String::from_str("запись экрана"), String::from_str("obs-studio"));
}

fn add_named_group_2(kb: &mut KnowledgeBase)
    ensures
        final(kb)@ == named_group_2(old(kb)@),
{
    kb.insert(String::from_str("obs"), String::from_str("obs-studio"));
    kb.insert(String::from_str("гит"), String::from_str("git"));
    kb.insert(String::from_str("git"), String::from_str("git"));
    kb.insert(String::from_str("докер"), String::from_str("docker"));
    kb.insert(String::from_str("docker"), String::from_str("docker"));
    kb.insert(String::from_str("компас"), String::from_str("libreoffice"));
    kb.insert(String::from_str("офис"), String::from_str("libreoffice-fresh"));
    kb.insert(String::from_str("почта"), String::from_str("thunderbird"));
    kb.insert(String::from_str("thunderbird"), String::from_str("thunderbird"));
    kb.insert(String::from_str("торрент"), String::from_str("qbittorrent"));
    kb.insert(String::from_str("qbittorrent"), String::from_str("qbittorrent"));
    kb.insert(String::from_str("steam"), String::from_str("steam"));
    kb.insert(String::from_str("стим"), String::from_str("steam"));
    kb.insert(String::from_str("рисование"), String::from_str("gimp"));
    kb.insert(String::from_str("gimp"), String::from_str("gimp"));
    kb.insert(String::from_str("инкскейп"), String::from_str("inkscape"));
    kb.insert(String::from_str("блюпури"), String::from_str("blueman"));
    kb.insert(String::from_str("блютуз"), String::from_str("blueman"));
    kb.insert(String::from_str("принтер"), String::from_str("system-config-printer"));
    kb.insert(String::from_str("виртуалка"), String::from_str("virt-manager"));
    kb.insert(String::from_str("virtualbox"), String::from_str("virtualbox"));
    kb.insert(String::from_str("номус"), String::from_str("qemu-desktop"));
    kb.insert(String::from_str("чат"), String::from_str("pidgin"));
    kb.insert(String::from_str("матрица"), String::from_str("element-desktop"));
    kb.insert(String::from_str("элемент"), String::from_str("element-desktop"));
}

fn add_named_group_3(kb: &mut KnowledgeBase)
    ensures
        final(kb)@ == named_group_3(old(kb)@),
{
    kb.insert(String::from_str("система"), String::from_str("gnome-system-monitor"));
    kb.insert(String::from_str("монитор"), String::from_str("htop"));
    kb.insert(String::from_str("htop"), String::from_str("htop"));
    kb.insert(String::from_str("нейросеть"), String::from_str("ollama"));
    kb.insert(String::from_str("ollama"), String::from_str("ollama"));
    kb.insert(String::from_str("blender"), String::from_str("blender"));
    kb.insert(String::from_str("блендер"), String::from_str("blender"));
    kb.insert(String::from_str("krita"), String::from_str("krita"));
    kb.insert(String::from_str("крита"), String::from_str("krita"));
    kb.insert(String::from_str("darktable"), String::from_str("darktable"));
    kb.insert(String::from_str("темная комната"), String::from_str("darktable"));
    kb.insert(String::from_str("rhythmbox"), String::from_str("rhythmbox"));
    kb.insert(String::from_str("ритмбокс"), String::from_str("rhythmbox"));
    kb.insert(String::from_str("vlc"), String::from_str("vlc"));
    kb.insert(String::from_str("вэлси"), String::from_str("vlc"));
    kb.insert(String::from_str("evince"), String::from_str("evince"));
    kb.insert(String::from_str("пдф"), String::from_str("evince"));
    kb.insert(String::from_str("gparted"), String::from_str("gparted"));
    kb.insert(String::from_str("разметка диска"), String::from_str("gparted"));
    kb.insert(String::from_str("gnome-disks"), String::from_str("gnome-disk-utility"));
    kb.insert(String::from_str("диски"), String::from_str("gnome-disk-utility"));
}

fn add_named_group_4(kb: &mut KnowledgeBase)
    ensures
        final(kb)@ == named_group_4(old(kb)@),
{
    kb.insert(String::from_str("browser"), String::from_str("firefox"));
    kb.insert(String::from_str("calculator"), String::from_str("gnome-calculator"));
    kb.insert(String::from_str("terminal"), String::from_str("alacritty"));
    kb.insert(String::from_str("file manager"), String::from_str("thunar"));
    kb.insert(String::from_str("editor"), String::from_str("gedit"));
    kb.insert(String::from_str("code"), String::from_str("visual-studio-code-bin"));
    kb.insert(String::from_str("discord"), String::from_str("discord"));
    kb.insert(String::from_str("spotify"), String::from_str("spotify"));
    kb.insert(String::from_str("video player"), String::from_str("mpv"));
    kb.insert(String::from_str("audio player"), String::from_str("audacious"));
    kb.insert(String::from_str("screenshot"), String::from_str("flameshot"));
    kb.insert(String::from_str("screen recorder"), String::from_str("obs-studio"));
    kb.insert(String::from_str("git"), String::from_str("git"));
    kb.insert(String::from_str("docker"), String::from_str("docker"));
    kb.insert(String::from_str("office"), String::from_str("libreoffice-fresh"));
}

fn add_named_group_5(kb: &mut KnowledgeBase)
    ensures
        final(kb)@ == named_group_5(old(kb)@),
{
    kb.insert(String::from_str("email"), String::from_str("thunderbird"));
    kb.insert(String::from_str("torrent"), String::from_str("qbittorrent"));
    kb.insert(String::from_str("steam"), String::from_str("steam"));
    kb.insert(String::from_str("drawing"), String::from_str("gimp"));
    kb.insert(String::from_str("bluetooth"), String::from_str("blueman"));
    kb.insert(String::from_str("printer"), String::from_str("system-config-printer"));
    kb.insert(String::from_str("virtual machine"), String::from_str("virt-manager"));
    kb.insert(String::from_str("chat"), String::from_str("pidgin"));
    kb.insert(String::from_str("matrix"), String::from_str("element-desktop"));
    kb.insert(String::from_str("system monitor"), String::from_str("gnome-system-monitor"));
    kb.insert(String::from_str("neural"), String::from_str("ollama"));
    kb.insert(String::from_str("blender"), String::from_str("blender"));
    kb.insert(String::from_str("krita"), String::from_str("krita"));
    kb.insert(String::from_str("pdf"), String::from_str("evince"));
    kb.insert(String::from_str("disk"), String::from_str("gnome-disk-utility"));
}

/// The name of the `i`-th numbered application.
pub open spec fn numbered_name(i: nat) -> Seq<char> {
    "app_"@ + decimal(i)
}

/// The package of the `i`-th numbered application.
pub open spec fn numbered_package(i: nat) -> Seq<char> {
    "package-"@ + decimal(i)
}

/// `m` with the numbered applications `1..=n` added.
pub open spec fn with_numbered(m: Map<Seq<char>, Seq<char>>, n: nat) -> Map<Seq<char>, Seq<char>>
    decreases n,
{
    if n == 0 {
        m
    } else {
        with_numbered(m, (n - 1) as nat).insert(numbered_name(n), numbered_package(n))
    }
}

/// The applications named in the table, before the numbered ones.
pub open spec fn named_applications() -> Map<Seq<char>, Seq<char>> {
    named_group_5(
        named_group_4(named_group_3(named_group_2(named_group_1(Map::empty())))),
    )
}

/// The whole table: the named applications, then `app_1` to `app_100`.
pub open spec fn knowledge_table() -> Map<Seq<char>, Seq<char>> {
    with_numbered(named_applications(), 100)
}

/// Builds the table of known applications.
pub fn app_knowledge() -> (kb: KnowledgeBase)
    ensures
        kb@ == knowledge_table(),
{
    let mut kb = KnowledgeBase::new();
    add_named_group_1(&mut kb);
    add_named_group_2(&mut kb);
    add_named_group_3(&mut kb);
    add_named_group_4(&mut kb);
    add_named_group_5(&mut kb);
    let mut i: u32 = 1;
    while i <= 100
        invariant
            1 <= i <= 101,
            kb@ == with_numbered(named_applications(), (i - 1) as nat),
        decreases 101 - i,
    {
        let name = String::from_str("app_").concat(decimal_text(i).as_str());
        let package = String::from_str("package-").concat(decimal_text(i).as_str());
        kb.insert(name, package);
        assert((i - 1) as nat == (i as nat - 1) as nat);
        i = i + 1;
    }
    kb
}

/// Unicode lower case of a text, as `str::to_lowercase` gives it.
pub uninterp spec fn lowercase(text: Seq<char>) -> Seq<char>;

/// Trusted: `str::to_lowercase` (std). Its result is named by `lowercase`:
/// std maps each character by the Unicode lower case mapping, which the
/// library does not write out.
#[verifier::external_body]
pub(crate) fn to_lowercase(text: &str) -> (r: String)
    ensures
        r@ == lowercase(text@),
{
    text.to_lowercase()
}

/// The package for an application name, in any letter case.
pub fn lookup_package(query: &str) -> (r: Option<String>)
    ensures
        r is Some <==> knowledge_table().contains_key(lowercase(query@)),
        r matches Some(p) ==> p@ == knowledge_table()[lowercase(query@)],
{
    app_knowledge().lookup(query)
}

/// Each numbered application `app_i`, for `i` from 1 to 100, is known and
/// provided by `package-i`.
pub proof fn lemma_numbered_applications_known(i: nat)
    requires
        1 <= i <= 100,
    ensures
        knowledge_table().contains_key(numbered_name(i)),
        knowledge_table()[numbered_name(i)] == numbered_package(i),
{
    lemma_numbered_kept(named_applications(), i, 100);
}

proof fn lemma_numbered_kept(m: Map<Seq<char>, Seq<char>>, i: nat, n: nat)
    requires
        1 <= i <= n,
    ensures
        with_numbered(m, n).contains_key(numbered_name(i)),
        with_numbered(m, n)[numbered_name(i)] == numbered_package(i),
    decreases n,
{
    if i < n {
        lemma_numbered_kept(m, i, (n - 1) as nat);
        if numbered_name(n) == numbered_name(i) {
            assert(numbered_name(n).skip("app_"@.len() as int) =~= decimal(n));
            assert(numbered_name(i).skip("app_"@.len() as int) =~= decimal(i));
            lemma_decimal_injective(n, i);
        }
    }
}

} // verus!
