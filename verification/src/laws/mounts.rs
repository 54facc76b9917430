//! Mount settings and the options that they become.

use vstd::prelude::*;

use crate::mount::{MountConfig, MountOption, SessionConfig, ThreadPoolConfig, ThreadingMode};

verus! {

/// A new configuration has the given name and asks for default permissions and nothing else.
pub proof fn law_new_settings_ask_for_default_permissions(fs_name: &str, config: MountConfig)
    requires
        call_ensures(MountConfig::new, (fs_name,), config),
    ensures
        config.fs_name@ == fs_name@,
        config.default_permissions,
        !config.allow_other && !config.allow_root && !config.read_only && !config.nonempty,
        config.volname is None,
        config.extra_options@.len() == 0,
{
    assert(config@.extra_options.len() == config.extra_options@.len());
}

/// The word is one of a list.
pub open spec fn among(words: Seq<&str>, word: Seq<char>) -> bool {
    exists|i: int| 0 <= i < words.len() && (#[trigger] words[i])@ == word
}

/// Option words turn on what they name and turn nothing off: each of the five known words
/// its own field. The name of the filesystem and of the volume stay.
pub proof fn law_words_turn_on_what_they_name(args: (&mut MountConfig, &[&str]))
    requires
        call_ensures(MountConfig::parse_option_words, args, ()),
    ensures
        final(args.0).allow_other <==> old(args.0).allow_other || among(args.1@, "allow_other"@),
        final(args.0).allow_root <==> old(args.0).allow_root || among(args.1@, "allow_root"@),
        final(args.0).nonempty <==> old(args.0).nonempty || among(args.1@, "nonempty"@),
        final(args.0).read_only <==> old(args.0).read_only || among(args.1@, "ro"@),
        final(args.0).default_permissions <==> old(args.0).default_permissions || among(
            args.1@,
            "default_permissions"@,
        ),
        final(args.0).fs_name@ == old(args.0).fs_name@,
        final(args.0).volname is None <==> old(args.0).volname is None,
        old(args.0).volname matches Some(name) ==> final(args.0).volname->0@ == name@,
{
    lemma_among(args.1@, "allow_other"@);
    lemma_among(args.1@, "allow_root"@);
    lemma_among(args.1@, "nonempty"@);
    lemma_among(args.1@, "ro"@);
    lemma_among(args.1@, "default_permissions"@);
    let before = old(args.0)@;
    let after = final(args.0)@;
    assert(after.volname == before.volname);
}

proof fn lemma_among(words: Seq<&str>, word: Seq<char>)
    ensures
        among(words, word) <==> crate::mount::texts(words).contains(word),
{
    let all = crate::mount::texts(words);
    if among(words, word) {
        let i = choose|i: int| 0 <= i < words.len() && (#[trigger] words[i])@ == word;
        assert(all[i] == word);
    }
    if all.contains(word) {
        let i = choose|i: int| 0 <= i < all.len() && all[i] == word;
        assert(words[i]@ == word);
    }
}

/// The words that are none of the five known ones are kept, behind the extra options that
/// there were, once for each time that they were given and in their order.
pub proof fn law_unknown_words_are_kept_in_order(args: (&mut MountConfig, &[&str]))
    requires
        call_ensures(MountConfig::parse_option_words, args, ()),
    ensures
        final(args.0).extra_options@.map_values(|w: String| w@) == old(
            args.0,
        ).extra_options@.map_values(|w: String| w@) + args.1@.map_values(|w: &str| w@).filter(
            |w: Seq<char>|
                w != "allow_other"@ && w != "allow_root"@ && w != "nonempty"@ && w != "ro"@ && w
                    != "default_permissions"@,
        ),
{
    let words = args.1@.map_values(|w: &str| w@);
    let known = |w: Seq<char>| !crate::mount::is_known_word(w);
    let listed = |w: Seq<char>|
        w != "allow_other"@ && w != "allow_root"@ && w != "nonempty"@ && w != "ro"@ && w
            != "default_permissions"@;
    assert(words =~= crate::mount::texts(args.1@));
    assert(known =~= listed);
    assert(old(args.0)@.extra_options == old(args.0).extra_options@.map_values(|w: String| w@));
    assert(final(args.0)@.extra_options == final(args.0).extra_options@.map_values(
        |w: String| w@,
    ));
}

/// An option stands in a list.
pub open spec fn listed(options: Seq<MountOption>, wanted: spec_fn(MountOption) -> bool) -> bool {
    exists|i: int| 0 <= i < options.len() && wanted(#[trigger] options[i])
}

/// The rendered options begin with the name of the filesystem, and each policy stands among
/// them exactly if the settings ask for it; so does the volume name, as it is.
pub proof fn law_options_say_the_settings(cfg: &MountConfig, options: Vec<MountOption>)
    requires
        call_ensures(crate::mount::build_mount_options, (cfg,), options),
    ensures
        options@.len() == cfg.extra_options@.len() + 1 + (if cfg.allow_other { 1int } else { 0 })
            + (if cfg.allow_root { 1int } else { 0 }) + (if cfg.default_permissions { 1int } else {
            0
        }) + (if cfg.read_only { 1int } else { 0 })
            + (if cfg.nonempty { 1int } else { 0 }) + (if cfg.volname is Some {
            1int
        } else {
            0
        }),
        options@[0] matches MountOption::FsName(name) && name@ == cfg.fs_name@,
        listed(options@, |o: MountOption| o is AllowOther) <==> cfg.allow_other,
        listed(options@, |o: MountOption| o is AllowRoot) <==> cfg.allow_root,
        listed(options@, |o: MountOption| o is DefaultPermissions) <==> cfg.default_permissions,
        listed(options@, |o: MountOption| o is ReadOnly) <==> cfg.read_only,
        listed(options@, |o: MountOption| o is NonEmpty) <==> cfg.nonempty,
        listed(options@, |o: MountOption| o is VolName) <==> cfg.volname is Some,
        forall|i: int|
            0 <= i < options@.len() && (#[trigger] options@[i]) is VolName ==> options@[i]->VolName_0@
                == cfg.volname->0@,
{
    let views = crate::mount::option_views(options@);
    let policy = cfg@.policy_options();
    let n = policy.len() as int;
    assert(views.len() == options@.len());
    assert(forall|i: int| 0 <= i < options@.len() ==> views[i] == (#[trigger] options@[i])@);
    assert(views == cfg@.options());
    assert(forall|i: int| n <= i < views.len() ==> #[trigger] views[i] is Custom);
    assert(forall|i: int| 0 <= i < n ==> #[trigger] views[i] == policy[i]);
    let named = seq![crate::mount::MountOptionView::FsName(cfg@.fs_name)];
    let o1 = crate::mount::push_if(named, cfg.allow_other, crate::mount::MountOptionView::AllowOther);
    let o2 = crate::mount::push_if(o1, cfg.allow_root, crate::mount::MountOptionView::AllowRoot);
    let o3 = crate::mount::push_if(
        o2,
        cfg.default_permissions,
        crate::mount::MountOptionView::DefaultPermissions,
    );
    let o4 = crate::mount::push_if(o3, cfg.read_only, crate::mount::MountOptionView::ReadOnly);
    let o5 = crate::mount::push_if(o4, cfg.nonempty, crate::mount::MountOptionView::NonEmpty);
    assert(views[0] == options@[0]@);
    if cfg.allow_other {
        assert(views[o1.len() - 1] is AllowOther);
        assert(options@[o1.len() - 1] is AllowOther);
    }
    if cfg.allow_root {
        assert(views[o2.len() - 1] is AllowRoot);
        assert(options@[o2.len() - 1] is AllowRoot);
    }
    if cfg.default_permissions {
        assert(views[o3.len() - 1] is DefaultPermissions);
        assert(options@[o3.len() - 1] is DefaultPermissions);
    }
    if cfg.read_only {
        assert(views[o4.len() - 1] is ReadOnly);
        assert(options@[o4.len() - 1] is ReadOnly);
    }
    if cfg.nonempty {
        assert(views[o5.len() - 1] is NonEmpty);
        assert(options@[o5.len() - 1] is NonEmpty);
    }
    if cfg.volname is Some {
        assert(views[n - 1] is VolName);
        assert(options@[n - 1] is VolName);
    }
    assert forall|i: int| 0 <= i < options@.len() implies {
        let o = #[trigger] options@[i];
        &&& o is AllowOther ==> cfg.allow_other
        &&& o is AllowRoot ==> cfg.allow_root
        &&& o is DefaultPermissions ==> cfg.default_permissions
        &&& o is ReadOnly ==> cfg.read_only
        &&& o is NonEmpty ==> cfg.nonempty
        &&& o is VolName ==> cfg.volname is Some && o->VolName_0@ == cfg.volname->0@
    } by {
        assert(views[i] == options@[i]@);
    }
}

/// The raw words among the rendered options are the extra options, in their order, at the
/// end of the list; and every option but the name, the five policies and the volume name is
/// one of them.
pub proof fn law_extra_words_end_the_options(cfg: &MountConfig, options: Vec<MountOption>, i: int)
    requires
        call_ensures(crate::mount::build_mount_options, (cfg,), options),
        0 <= i < cfg.extra_options@.len(),
    ensures
        cfg.extra_options@.len() <= options@.len() <= cfg.extra_options@.len() + 7,
        options@[options@.len() - cfg.extra_options@.len() + i] matches MountOption::Custom(word)
            && word@ == cfg.extra_options@[i]@,
        forall|j: int|
            0 <= j < options@.len() - cfg.extra_options@.len() ==> !((#[trigger] options@[j])
                is Custom),
{
    let views = crate::mount::option_views(options@);
    let policy = cfg@.policy_options();
    assert(views == cfg@.options());
    assert(views.len() == options@.len());
    assert(cfg@.extra_options.len() == cfg.extra_options@.len());
    let at = options@.len() - cfg.extra_options@.len() + i;
    assert(at == policy.len() + i);
    assert(views[at] == options@[at]@);
    assert(cfg@.extra_options[i] == cfg.extra_options@[i]@);
    assert(views[at] == crate::mount::MountOptionView::Custom(cfg@.extra_options[i]));
    assert forall|j: int| 0 <= j < policy.len() implies !((#[trigger] options@[j]) is Custom) by {
        assert(views[j] == options@[j]@);
        assert(views[j] == policy[j]);
    }
}

/// A mount is made with the rendered options, and dispatches requests one by one exactly if
/// it is told to; otherwise with ten workers that are all kept and share one descriptor.
pub proof fn law_mounts_dispatch_as_told(
    cfg: &MountConfig,
    single: bool,
    plan: (Vec<MountOption>, SessionConfig),
    options: Vec<MountOption>,
    pool: ThreadPoolConfig,
    i: int,
)
    requires
        call_ensures(crate::mount::mount_plan, (cfg, single), plan),
        call_ensures(crate::mount::build_mount_options, (cfg,), options),
        call_ensures(<ThreadPoolConfig as Default>::default, (), pool),
        0 <= i < options@.len(),
    ensures
        plan.0@.len() == options@.len(),
        plan.0@[i]@ == options@[i]@,
        single ==> plan.1.threading is SingleThreaded,
        !single ==> plan.1.threading == ThreadingMode::MultiThreaded(pool),
        pool.max_threads == 10 && pool.idle_threads is None && !pool.clone_fd,
{
    let views = crate::mount::option_views(options@);
    assert(views == crate::mount::option_views(plan.0@));
    assert(views.len() == options@.len());
    assert(crate::mount::option_views(plan.0@).len() == plan.0@.len());
    assert(views[i] == options@[i]@);
    assert(crate::mount::option_views(plan.0@)[i] == plan.0@[i]@);
}

} // verus!
