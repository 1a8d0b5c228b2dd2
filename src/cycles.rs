//! Facts about consecutive transitions of the provisioner.
use vstd::prelude::*;
use crate::platform::{asset_name_of, Architecture, Os};
use crate::provision::{
    runs, stale_of, step_post, Action, CleanupPolicy, Event, NorminetteExtension, Phase,
    ProvisionError, Status, Step,
};
use crate::release::{has_asset, install_path_of, url_of, Release};

verus! {

/// When the release holds no asset named for the platform, the cycle ends
/// right after the release arrives: it fails with `AssetNotFound` naming the
/// expected asset, reports a Failed status, keeps the cache, and asks for no
/// download.
pub proof fn missing_asset_fails(
    s0: NorminetteExtension,
    os: Os,
    arch: Architecture,
    rel: Release,
    s1: NorminetteExtension,
    out1: Step,
    s2: NorminetteExtension,
    out2: Step,
)
    requires
        s0.phase is Ready,
        !has_asset(rel.assets@, asset_name_of(s0.tool@, os, arch)),
        step_post(s0, Event::Begin(os, arch), s1, out1),
        step_post(s1, Event::ReleaseFetched(rel), s2, out2),
    ensures
        out1.action is FetchRelease,
        out2.action matches Action::Finish(Err(ProvisionError::AssetNotFound(n))) && n@
            == asset_name_of(s0.tool@, os, arch),
        out2.status matches Some(Status::Failed(_)),
        s2.cache == s0.cache,
        s2.phase is Ready,
{
}

/// When the cache holds the latest version and its file is still there, the
/// cycle returns the cached path: no download is asked for, no Downloading
/// status is reported, and the cache is kept.
pub proof fn cached_install_is_reused(
    s0: NorminetteExtension,
    os: Os,
    arch: Architecture,
    rel: Release,
    s1: NorminetteExtension,
    out1: Step,
    s2: NorminetteExtension,
    out2: Step,
    s3: NorminetteExtension,
    out3: Step,
)
    requires
        s0.phase is Ready,
        s0.cache matches Some(c) && c.version@ == rel.version@,
        has_asset(rel.assets@, asset_name_of(s0.tool@, os, arch)),
        step_post(s0, Event::Begin(os, arch), s1, out1),
        step_post(s1, Event::ReleaseFetched(rel), s2, out2),
        step_post(s2, Event::FileChecked(true), s3, out3),
    ensures
        out2.action matches Action::CheckFile(p) && p@ == s0.cache->Some_0.path@,
        out3.action matches Action::Finish(Ok(c)) && runs(c, s0.cache->Some_0.path@),
        out1.status != Some(Status::Downloading),
        out2.status != Some(Status::Downloading),
        out3.status != Some(Status::Downloading),
        s3.cache == s0.cache,
        s3.phase is Ready,
{
}

/// When the cached file has gone, the cycle does not return its path: it
/// drops the cache and checks the versioned install path, and where that is
/// no file either, reports Downloading and downloads the release's asset
/// there.
pub proof fn missing_cached_file_is_downloaded_again(
    s0: NorminetteExtension,
    os: Os,
    arch: Architecture,
    rel: Release,
    s1: NorminetteExtension,
    out1: Step,
    s2: NorminetteExtension,
    out2: Step,
    s3: NorminetteExtension,
    out3: Step,
    s4: NorminetteExtension,
    out4: Step,
)
    requires
        s0.phase is Ready,
        s0.cache matches Some(c) && c.version@ == rel.version@,
        has_asset(rel.assets@, asset_name_of(s0.tool@, os, arch)),
        step_post(s0, Event::Begin(os, arch), s1, out1),
        step_post(s1, Event::ReleaseFetched(rel), s2, out2),
        step_post(s2, Event::FileChecked(false), s3, out3),
        step_post(s3, Event::FileChecked(false), s4, out4),
    ensures
        out3.action matches Action::CheckFile(p) && p@ == install_path_of(s0.tool@, rel.version@),
        s3.cache is None,
        out4.status == Some(Status::Downloading),
        out4.action matches Action::Download { url, path } && url@ == url_of(
            rel.assets@,
            asset_name_of(s0.tool@, os, arch),
        ) && path@ == install_path_of(s0.tool@, rel.version@),
{
}

/// Consecutive transitions: state `s[i]` takes event `evs[i]` to state
/// `s[i + 1]` with output `outs[i]`.
pub open spec fn is_run(s: Seq<NorminetteExtension>, evs: Seq<Event>, outs: Seq<Step>) -> bool {
    &&& s.len() == evs.len() + 1
    &&& outs.len() == evs.len()
    &&& forall|i: int|
        #![trigger evs[i]]
        0 <= i < evs.len() ==> step_post(s[i], evs[i], s[i + 1], outs[i])
}

/// The paths, in order, that the outputs ask to remove.
pub open spec fn removals(outs: Seq<Step>) -> Seq<Seq<char>>
    decreases outs.len(),
{
    if outs.len() == 0 {
        Seq::empty()
    } else {
        let r = removals(outs.drop_last());
        match outs.last().action {
            Action::Remove(p) => r.push(p@),
            _ => r,
        }
    }
}

/// Where a run starts at the directory listing and no output yet finished the
/// cycle, the cleanup has asked to remove the first `k` superseded entries,
/// each removal so far was confirmed, and it waits on entry `k - 1`.
proof fn cleanup_prefix(
    s: Seq<NorminetteExtension>,
    evs: Seq<Event>,
    outs: Seq<Step>,
    entries: Vec<String>,
    k: int,
)
    requires
        is_run(s, evs, outs),
        s[0].phase is AwaitListing,
        s[0].policy == CleanupPolicy::FailFast,
        evs[0] == Event::Listed(entries),
        1 <= k <= evs.len(),
        forall|i: int| 0 <= i < k ==> !(#[trigger] outs[i].action is Finish),
    ensures
        s[k].policy == CleanupPolicy::FailFast,
        s[k].phase matches Phase::Cleaning { target, version, stale, next } && target
            == s[0].phase->AwaitListing_target && version == s[0].phase->AwaitListing_version
            && crate::provision::names(stale@) == stale_of(entries@, target@) && next == k - 1,
        k - 1 < stale_of(entries@, s[0].phase->AwaitListing_target@).len(),
        removals(outs.take(k)) == stale_of(entries@, s[0].phase->AwaitListing_target@).take(k),
        forall|i: int| 1 <= i < k ==> #[trigger] evs[i] is Removed,
    decreases k,
{
    let target = s[0].phase->AwaitListing_target;
    let st = stale_of(entries@, target@);
    assert(step_post(s[0], evs[0], s[1], outs[0]));
    if k == 1 {
        assert(!(outs[0].action is Finish));
        assert(outs.take(1).drop_last() =~= Seq::<Step>::empty());
        assert(outs.take(1).last() == outs[0]);
        assert(st.len() > 0);
        assert(outs[0].action matches Action::Remove(p) && p@ == st[0]);
        assert(removals(outs.take(1).drop_last()) =~= Seq::<Seq<char>>::empty());
        assert(removals(outs.take(1)) =~= seq![st[0]]);
        assert(st.take(1) =~= seq![st[0]]);
    } else {
        cleanup_prefix(s, evs, outs, entries, k - 1);
        assert(step_post(s[k - 1], evs[k - 1], s[k], outs[k - 1]));
        assert(!(outs[k - 1].action is Finish));
        let stale = s[k - 1].phase->Cleaning_stale;
        assert(outs.take(k).drop_last() =~= outs.take(k - 1));
        assert(outs.take(k).last() == outs[k - 1]);
        assert(crate::provision::names(stale@)[k - 1] == stale@[k - 1]@);
        assert(removals(outs.take(k)) == removals(outs.take(k - 1)).push(st[k - 1]));
        assert(st.take(k) =~= st.take(k - 1).push(st[k - 1]));
    }
}

/// After a cycle that fails fast on cleanup errors ends in success, every
/// entry of the install directory's listing other than the new install was
/// asked to be removed, in the listing's order, and each removal was
/// confirmed; the cache records the new install.
pub proof fn install_leaves_only_target(
    s: Seq<NorminetteExtension>,
    evs: Seq<Event>,
    outs: Seq<Step>,
    entries: Vec<String>,
)
    requires
        is_run(s, evs, outs),
        evs.len() >= 1,
        s[0].phase is AwaitListing,
        s[0].policy == CleanupPolicy::FailFast,
        evs[0] == Event::Listed(entries),
        forall|i: int| 0 <= i < evs.len() - 1 ==> !(#[trigger] outs[i].action is Finish),
        outs.last().action matches Action::Finish(Ok(_)),
    ensures
        removals(outs) == stale_of(entries@, s[0].phase->AwaitListing_target@),
        forall|i: int| 1 <= i < evs.len() ==> #[trigger] evs[i] is Removed,
        s.last().cache matches Some(c) && c.path@ == s[0].phase->AwaitListing_target@
            && c.version@ == s[0].phase->AwaitListing_version@,
{
    let n = evs.len() as int;
    let target = s[0].phase->AwaitListing_target;
    let st = stale_of(entries@, target@);
    assert(outs.take(n) =~= outs);
    if n == 1 {
        assert(step_post(s[0], evs[0], s[1], outs[0]));
        assert(outs.drop_last() =~= Seq::<Step>::empty());
        assert(removals(outs) == removals(outs.drop_last()));
        assert(st =~= Seq::<Seq<char>>::empty());
    } else {
        cleanup_prefix(s, evs, outs, entries, n - 1);
        assert(step_post(s[n - 1], evs[n - 1], s[n], outs[n - 1]));
        assert(outs.drop_last() =~= outs.take(n - 1));
        let stale = s[n - 1].phase->Cleaning_stale;
        assert(crate::provision::names(stale@).len() == stale@.len());
        assert(st.take(n - 1) =~= st);
        assert(removals(outs) == removals(outs.drop_last()));
    }
}

} // verus!
