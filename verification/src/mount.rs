//! Mount configuration shared by FUSE daemons: build a [`MountConfig`], turn it into
//! [`MountOption`]s, and choose how the session dispatches requests.

use vstd::prelude::*;

use crate::text::same_text;

verus! {

/// Mount settings for a daemon that serves a path filesystem.
#[derive(Debug)]
pub struct MountConfig {
    pub fs_name: String,
    pub allow_other: bool,
    pub allow_root: bool,
    pub default_permissions: bool,
    pub read_only: bool,
    pub nonempty: bool,
    /// macOS Finder volume name.
    pub volname: Option<String>,
    /// Additional raw mount option words, without any `-o` prefix.
    pub extra_options: Vec<String>,
}

/// Mount settings as a value.
pub struct MountConfigView {
    pub fs_name: Seq<char>,
    pub allow_other: bool,
    pub allow_root: bool,
    pub default_permissions: bool,
    pub read_only: bool,
    pub nonempty: bool,
    pub volname: Option<Seq<char>>,
    pub extra_options: Seq<Seq<char>>,
}

impl View for MountConfig {
    type V = MountConfigView;

    open spec fn view(&self) -> MountConfigView {
        MountConfigView {
            fs_name: self.fs_name@,
            allow_other: self.allow_other,
            allow_root: self.allow_root,
            default_permissions: self.default_permissions,
            read_only: self.read_only,
            nonempty: self.nonempty,
            volname: match self.volname {
                Some(volname) => Some(volname@),
                None => None,
            },
            extra_options: self.extra_options@.map_values(|word: String| word@),
        }
    }
}

/// A word that sets a field of its own.
pub open spec fn is_known_word(word: Seq<char>) -> bool {
    ||| word == "allow_other"@
    ||| word == "allow_root"@
    ||| word == "nonempty"@
    ||| word == "ro"@
    ||| word == "default_permissions"@
}

/// The words that no field stands for, in their order.
pub open spec fn other_words(words: Seq<Seq<char>>) -> Seq<Seq<char>> {
    words.filter(|word: Seq<char>| !is_known_word(word))
}

impl MountConfigView {
    /// The settings after a batch of option words: a known word sets its field, and all
    /// others are extra options.
    pub open spec fn with_words(self, words: Seq<Seq<char>>) -> MountConfigView {
        MountConfigView {
            allow_other: self.allow_other || words.contains("allow_other"@),
            allow_root: self.allow_root || words.contains("allow_root"@),
            nonempty: self.nonempty || words.contains("nonempty"@),
            read_only: self.read_only || words.contains("ro"@),
            default_permissions: self.default_permissions || words.contains("default_permissions"@),
            extra_options: self.extra_options + other_words(words),
            ..self
        }
    }
}

/// The texts of a list of words.
pub open spec fn texts(words: Seq<&str>) -> Seq<Seq<char>> {
    words.map_values(|word: &str| word@)
}

proof fn lemma_words_differ()
    ensures
        "allow_other"@ != "allow_root"@,
        "allow_other"@ != "nonempty"@,
        "allow_other"@ != "ro"@,
        "allow_other"@ != "default_permissions"@,
        "allow_root"@ != "nonempty"@,
        "allow_root"@ != "ro"@,
        "allow_root"@ != "default_permissions"@,
        "nonempty"@ != "ro"@,
        "nonempty"@ != "default_permissions"@,
        "ro"@ != "default_permissions"@,
{
    assert("allow_other"@.len() == 11) by {
        reveal_strlit("allow_other");
    }
    assert("allow_root"@.len() == 10) by {
        reveal_strlit("allow_root");
    }
    assert("nonempty"@.len() == 8) by {
        reveal_strlit("nonempty");
    }
    assert("ro"@.len() == 2) by {
        reveal_strlit("ro");
    }
    assert("default_permissions"@.len() == 19) by {
        reveal_strlit("default_permissions");
    }
}

impl MountConfig {
    /// A config with sensible defaults for `fs_name` (`default_permissions` on, everything
    /// else off).
    pub fn new(fs_name: &str) -> (config: MountConfig)
        ensures
            config@ == (MountConfigView {
                fs_name: fs_name@,
                allow_other: false,
                allow_root: false,
                default_permissions: true,
                read_only: false,
                nonempty: false,
                volname: None,
                extra_options: Seq::empty(),
            }),
    {
        let config = MountConfig {
            fs_name: fs_name.to_string(),
            allow_other: false,
            allow_root: false,
            default_permissions: true,
            read_only: false,
            nonempty: false,
            volname: None,
            extra_options: Vec::new(),
        };
        assert(config@.extra_options =~= Seq::empty());
        config
    }

    fn apply_word(&mut self, word: &str)
        ensures
            final(self)@ == old(self)@.with_words(seq![word@]),
    {
        let ghost words = seq![word@];
        proof {
            lemma_words_differ();
            reveal_with_fuel(Seq::filter, 2);
            assert(words.drop_last() =~= Seq::<Seq<char>>::empty());
            assert(words[0] == word@);
            assert(other_words(words) =~= (if is_known_word(word@) {
                Seq::empty()
            } else {
                words
            }));
        }
        if same_text(word, "allow_other") {
            self.allow_other = true;
        } else if same_text(word, "allow_root") {
            self.allow_root = true;
        } else if same_text(word, "nonempty") {
            self.nonempty = true;
        } else if same_text(word, "ro") {
            self.read_only = true;
        } else if same_text(word, "default_permissions") {
            self.default_permissions = true;
        } else {
            self.extra_options.push(word.to_string());
        }
        assert(self@.extra_options =~= old(self)@.with_words(words).extra_options);
    }

    /// Applies a batch of comma-separated `-o` option words (e.g. already split from a
    /// `-o allow_other,ro` argument) to this config. Recognized words set the corresponding
    /// field; anything else is forwarded verbatim as an extra mount option.
    pub fn parse_option_words(&mut self, words: &[&str])
        ensures
            final(self)@ == old(self)@.with_words(texts(words@)),
    {
        let mut index: usize = 0;
        assert(other_words(texts(words@).take(0)) =~= Seq::empty()) by {
            reveal(Seq::filter);
        }
        assert(self@.extra_options =~= old(self)@.with_words(texts(words@).take(0)).extra_options);
        while index < words.len()
            invariant
                index <= words.len(),
                self@ == old(self)@.with_words(texts(words@).take(index as int)),
            decreases words.len() - index,
        {
            self.apply_word(words[index]);
            proof {
                lemma_words_add_up(old(self)@, texts(words@), index as int);
            }
            index += 1;
        }
        assert(texts(words@).take(index as int) =~= texts(words@));
    }
}

proof fn lemma_words_add_up(config: MountConfigView, words: Seq<Seq<char>>, i: int)
    requires
        0 <= i < words.len(),
    ensures
        config.with_words(words.take(i)).with_words(seq![words[i]]) == config.with_words(
            words.take(i + 1),
        ),
{
    let first = words.take(i);
    let one = seq![words[i]];
    let both = words.take(i + 1);
    assert(both =~= first + one);
    assert forall|word: Seq<char>| both.contains(word) == (first.contains(word) || one.contains(
        word,
    )) by {
        if first.contains(word) {
            let k = choose|k: int| 0 <= k < first.len() && first[k] == word;
            assert(both[k] == word);
        }
        if one.contains(word) {
            assert(both[i] == word);
        }
        if both.contains(word) {
            let k = choose|k: int| 0 <= k < both.len() && both[k] == word;
            if k < i {
                assert(first[k] == word);
            } else {
                assert(one[0] == word);
            }
        }
    }
    Seq::filter_distributes_over_add(first, one, |word: Seq<char>| !is_known_word(word));
    assert(other_words(both) == other_words(first) + other_words(one));
    assert(config.extra_options + (other_words(first) + other_words(one)) =~= (config.extra_options
        + other_words(first)) + other_words(one));
}

/// A mount option.
#[derive(Clone, Debug, PartialEq, Eq)]
pub enum MountOption {
    FsName(String),
    AllowOther,
    AllowRoot,
    DefaultPermissions,
    ReadOnly,
    NonEmpty,
    VolName(String),
    /// A raw option word.
    Custom(String),
}

/// A mount option as a value.
pub enum MountOptionView {
    FsName(Seq<char>),
    AllowOther,
    AllowRoot,
    DefaultPermissions,
    ReadOnly,
    NonEmpty,
    VolName(Seq<char>),
    Custom(Seq<char>),
}

impl View for MountOption {
    type V = MountOptionView;

    open spec fn view(&self) -> MountOptionView {
        match self {
            MountOption::FsName(name) => MountOptionView::FsName(name@),
            MountOption::AllowOther => MountOptionView::AllowOther,
            MountOption::AllowRoot => MountOptionView::AllowRoot,
            MountOption::DefaultPermissions => MountOptionView::DefaultPermissions,
            MountOption::ReadOnly => MountOptionView::ReadOnly,
            MountOption::NonEmpty => MountOptionView::NonEmpty,
            MountOption::VolName(name) => MountOptionView::VolName(name@),
            MountOption::Custom(word) => MountOptionView::Custom(word@),
        }
    }
}

/// The list with an option at its end, if the option is chosen.
pub open spec fn push_if(
    options: Seq<MountOptionView>,
    chosen: bool,
    option: MountOptionView,
) -> Seq<MountOptionView> {
    if chosen {
        options.push(option)
    } else {
        options
    }
}

impl MountConfigView {
    /// The options for everything but the extra words.
    pub open spec fn policy_options(self) -> Seq<MountOptionView> {
        let named = seq![MountOptionView::FsName(self.fs_name)];
        let o1 = push_if(named, self.allow_other, MountOptionView::AllowOther);
        let o2 = push_if(o1, self.allow_root, MountOptionView::AllowRoot);
        let o3 = push_if(o2, self.default_permissions, MountOptionView::DefaultPermissions);
        let o4 = push_if(o3, self.read_only, MountOptionView::ReadOnly);
        let o5 = push_if(o4, self.nonempty, MountOptionView::NonEmpty);
        match self.volname {
            Some(volname) => o5.push(MountOptionView::VolName(volname)),
            None => o5,
        }
    }

    /// The options: the name, the chosen policies, the volume name, and each extra word.
    pub open spec fn options(self) -> Seq<MountOptionView> {
        self.policy_options() + self.extra_options.map_values(
            |word: Seq<char>| MountOptionView::Custom(word),
        )
    }
}

/// The options of a list as values.
pub open spec fn option_views(options: Seq<MountOption>) -> Seq<MountOptionView> {
    options.map_values(|option: MountOption| option@)
}

fn push_option(options: &mut Vec<MountOption>, option: MountOption)
    ensures
        option_views(final(options)@) == option_views(old(options)@).push(option@),
{
    options.push(option);
    assert(option_views(options@) =~= option_views(old(options)@).push(option@));
}

/// Renders a [`MountConfig`] to the list of [`MountOption`]s that a session expects.
///
/// `uid=`/`gid=` are not among them: they belong to the high-level interface, the low-level
/// one rejects them, and attributes report the real ownership anyway.
pub fn build_mount_options(cfg: &MountConfig) -> (options: Vec<MountOption>)
    ensures
        option_views(options@) == cfg@.options(),
{
    let mut options: Vec<MountOption> = Vec::new();
    push_option(&mut options, MountOption::FsName(cfg.fs_name.clone()));
    assert(option_views(options@) =~= seq![MountOptionView::FsName(cfg@.fs_name)]);
    if cfg.allow_other {
        push_option(&mut options, MountOption::AllowOther);
    }
    if cfg.allow_root {
        push_option(&mut options, MountOption::AllowRoot);
    }
    if cfg.default_permissions {
        push_option(&mut options, MountOption::DefaultPermissions);
    }
    if cfg.read_only {
        push_option(&mut options, MountOption::ReadOnly);
    }
    if cfg.nonempty {
        push_option(&mut options, MountOption::NonEmpty);
    }
    if let Some(volname) = &cfg.volname {
        push_option(&mut options, MountOption::VolName(volname.clone()));
    }
    let ghost extra = cfg@.extra_options.map_values(
        |word: Seq<char>| MountOptionView::Custom(word),
    );
    let ghost policy = cfg@.policy_options();
    assert(option_views(options@) =~= policy + extra.take(0));
    let mut index: usize = 0;
    while index < cfg.extra_options.len()
        invariant
            index <= cfg.extra_options.len(),
            extra == cfg@.extra_options.map_values(
                |word: Seq<char>| MountOptionView::Custom(word),
            ),
            option_views(options@) == policy + extra.take(index as int),
        decreases cfg.extra_options.len() - index,
    {
        push_option(&mut options, MountOption::Custom(cfg.extra_options[index].clone()));
        assert(extra[index as int] == MountOptionView::Custom(cfg.extra_options@[index as int]@));
        assert(option_views(options@) =~= policy + extra.take(index + 1));
        index += 1;
    }
    assert(extra.take(index as int) =~= extra);
    options
}

/// A word that is parsed reaches the mount: a known one as its policy, any other verbatim.
pub proof fn law_option_words_reach_the_mount(
    config: MountConfigView,
    words: Seq<Seq<char>>,
    word: Seq<char>,
)
    requires
        words.contains(word),
    ensures
        ({
            let options = config.with_words(words).options();
            &&& word == "allow_other"@ ==> options.contains(MountOptionView::AllowOther)
            &&& word == "allow_root"@ ==> options.contains(MountOptionView::AllowRoot)
            &&& word == "nonempty"@ ==> options.contains(MountOptionView::NonEmpty)
            &&& word == "ro"@ ==> options.contains(MountOptionView::ReadOnly)
            &&& word == "default_permissions"@ ==> options.contains(
                MountOptionView::DefaultPermissions,
            )
            &&& !is_known_word(word) ==> options.contains(MountOptionView::Custom(word))
        }),
{
    let after = config.with_words(words);
    let options = after.options();
    lemma_policies_are_listed(after);
    if !is_known_word(word) {
        let i = choose|i: int| 0 <= i < words.len() && words[i] == word;
        words.lemma_filter_contains(|w: Seq<char>| !is_known_word(w), i);
        let k = choose|k: int| 0 <= k < other_words(words).len() && other_words(words)[k] == word;
        let at = config.extra_options.len() + k;
        assert(after.extra_options[at] == word);
        assert(options[after.policy_options().len() + at] == MountOptionView::Custom(word));
    }
}

/// No raw option word is made up: each is one of the configured extra words.
pub proof fn law_custom_options_are_the_extra_words(config: MountConfigView, word: Seq<char>)
    ensures
        config.options().contains(MountOptionView::Custom(word)) == config.extra_options.contains(
            word,
        ),
{
    let policy = config.policy_options();
    let options = config.options();
    if config.extra_options.contains(word) {
        let k = choose|k: int| 0 <= k < config.extra_options.len() && config.extra_options[k] == word;
        assert(options[policy.len() + k] == MountOptionView::Custom(word));
    }
    if options.contains(MountOptionView::Custom(word)) {
        let i = choose|i: int|
            0 <= i < options.len() && options[i] == MountOptionView::Custom(word);
        assert(forall|j: int| 0 <= j < policy.len() ==> policy[j] !is Custom);
        assert(i >= policy.len());
        assert(config.extra_options[i - policy.len()] == word);
    }
}

proof fn lemma_policies_are_listed(config: MountConfigView)
    ensures
        config.allow_other ==> config.options().contains(MountOptionView::AllowOther),
        config.allow_root ==> config.options().contains(MountOptionView::AllowRoot),
        config.default_permissions ==> config.options().contains(
            MountOptionView::DefaultPermissions,
        ),
        config.read_only ==> config.options().contains(MountOptionView::ReadOnly),
        config.nonempty ==> config.options().contains(MountOptionView::NonEmpty),
{
    let named = seq![MountOptionView::FsName(config.fs_name)];
    let o1 = push_if(named, config.allow_other, MountOptionView::AllowOther);
    let o2 = push_if(o1, config.allow_root, MountOptionView::AllowRoot);
    let o3 = push_if(o2, config.default_permissions, MountOptionView::DefaultPermissions);
    let o4 = push_if(o3, config.read_only, MountOptionView::ReadOnly);
    let o5 = push_if(o4, config.nonempty, MountOptionView::NonEmpty);
    let options = config.options();
    if config.allow_other {
        assert(options[o1.len() - 1] == MountOptionView::AllowOther);
    }
    if config.allow_root {
        assert(options[o2.len() - 1] == MountOptionView::AllowRoot);
    }
    if config.default_permissions {
        assert(options[o3.len() - 1] == MountOptionView::DefaultPermissions);
    }
    if config.read_only {
        assert(options[o4.len() - 1] == MountOptionView::ReadOnly);
    }
    if config.nonempty {
        assert(options[o5.len() - 1] == MountOptionView::NonEmpty);
    }
}

/// The worker pool of a session that dispatches requests concurrently.
#[derive(Clone, Copy, PartialEq, Eq, Structural, Debug)]
pub struct ThreadPoolConfig {
    pub max_threads: u32,
    /// How many idle workers to keep; `None` keeps all.
    pub idle_threads: Option<u32>,
    pub clone_fd: bool,
}

impl Default for ThreadPoolConfig {
    /// Ten workers, no idle retirement, `clone_fd` disabled.
    fn default() -> (pool: ThreadPoolConfig)
        ensures
            pool == (ThreadPoolConfig { max_threads: 10, idle_threads: None, clone_fd: false }),
    {
        ThreadPoolConfig { max_threads: 10, idle_threads: None, clone_fd: false }
    }
}

/// How a session dispatches requests.
#[derive(Clone, Copy, PartialEq, Eq, Structural, Debug)]
pub enum ThreadingMode {
    SingleThreaded,
    MultiThreaded(ThreadPoolConfig),
}

/// Session settings.
#[derive(Clone, Copy, PartialEq, Eq, Structural, Debug)]
pub struct SessionConfig {
    pub threading: ThreadingMode,
}

/// What a mount of a path filesystem is made with: the rendered options, and single- or
/// multi-threaded dispatch with the default pool.
pub fn mount_plan(cfg: &MountConfig, single_thread: bool) -> (plan: (
    Vec<MountOption>,
    SessionConfig,
))
    ensures
        option_views(plan.0@) == cfg@.options(),
        plan.1.threading == (if single_thread {
            ThreadingMode::SingleThreaded
        } else {
            ThreadingMode::MultiThreaded(
                ThreadPoolConfig { max_threads: 10, idle_threads: None, clone_fd: false },
            )
        }),
{
    let threading: ThreadingMode = if single_thread {
        ThreadingMode::SingleThreaded
    } else {
        ThreadingMode::MultiThreaded(ThreadPoolConfig::default())
    };
    (build_mount_options(cfg), SessionConfig { threading })
}

} // verus!
