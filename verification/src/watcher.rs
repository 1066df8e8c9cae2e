//! The mount-lifecycle watcher's decisions: the at-most-one-instance
//! registry, the polling reconciler, and the handler that turns filesystem
//! events into lifecycle notifications. The thread, the event subscription
//! and the notification channel live with the caller.

use vstd::prelude::*;
use vstd::string::StrSliceExecFns;
use crate::device::{
    classify_entries, get_volume_name, spec_config_path, spec_device_paths, spec_volume_name,
    DetectedDevice,
};
use crate::paths::{is_device_label, spec_is_device_label};
use crate::text::str_eq;

verus! {

/// What a start request does to the running flag: the watcher is running
/// afterwards, and a new loop begins exactly when none was running before.
pub open spec fn spec_start(running: bool) -> (bool, bool) {
    (true, !running)
}

/// Law: once a watcher runs, a further start request begins no second
/// loop — starting is idempotent.
pub proof fn lemma_second_start_begins_no_loop(running: bool)
    ensures
        spec_start(spec_start(running).0).1 == false,
{
}

/// Enforces that at most one watcher loop runs at a time. The ghost count
/// of live loops is tied to the flag: one while running, none otherwise.
pub struct WatcherRegistry {
    pub running: bool,
    pub loops: Ghost<int>,
}

impl WatcherRegistry {
    /// One live loop while the watcher runs, none otherwise.
    pub open spec fn wf(&self) -> bool {
        self.loops@ == if self.running {
            1int
        } else {
            0int
        }
    }

    /// A registry with no watcher running.
    pub fn new() -> (r: WatcherRegistry)
        ensures
            r.wf(),
            !r.running,
    {
        WatcherRegistry { running: false, loops: Ghost(0int) }
    }

    /// Claims the right to start: returns whether the caller must begin the
    /// background loop. A second request while running starts nothing.
    pub fn try_start(&mut self) -> (started: bool)
        requires
            old(self).wf(),
        ensures
            final(self).wf(),
            final(self).running == spec_start(old(self).running).0,
            started == spec_start(old(self).running).1,
            final(self).loops@ == 1,
    {
        let started = !self.running;
        self.running = true;
        proof {
            self.loops@ = 1int;
        }
        started
    }

    /// Records that the background loop has exited, so that a later start
    /// may begin a new one.
    pub fn mark_stopped(&mut self)
        requires
            old(self).wf(),
        ensures
            final(self).wf(),
            !final(self).running,
            final(self).loops@ == 0,
    {
        self.running = false;
        proof {
            self.loops@ = 0int;
        }
    }

    /// Whether a watcher loop is running.
    pub fn is_running(&self) -> (r: bool)
        ensures
            r == self.running,
    {
        self.running
    }
}

/// No name occurs twice.
pub open spec fn spec_unique(s: Seq<Seq<char>>) -> bool {
    forall|i: int, j: int| 0 <= i < j < s.len() ==> s[i] != s[j]
}

/// Whether `names` holds `x`.
fn contains_str(names: &Vec<String>, x: &str) -> (r: bool)
    ensures
        r == names.deep_view().contains(x@),
{
    let mut i: usize = 0;
    while i < names.len()
        invariant
            i <= names@.len(),
            forall|j: int| 0 <= j < i ==> names.deep_view()[j] != x@,
        decreases names@.len() - i,
    {
        if str_eq(names[i].as_str(), x) {
            proof {
                assert(names.deep_view()[i as int] == x@);
            }
            return true;
        }
        proof {
            assert(names.deep_view()[i as int] == names@[i as int]@);
        }
        i = i + 1;
    }
    proof {
        assert forall|j: int| 0 <= j < names.deep_view().len() implies names.deep_view()[j] != x@
            by {}
    }
    false
}

/// Appending one name to a list of names.
fn push_name(v: &mut Vec<String>, x: String)
    ensures
        final(v).deep_view() == old(v).deep_view().push(x@),
{
    v.push(x);
    proof {
        assert(final(v).deep_view() =~= old(v).deep_view().push(x@));
    }
}

proof fn lemma_push_contains<A>(s: Seq<A>, a: A)
    ensures
        forall|x: A| #[trigger] s.push(a).contains(x) <==> (s.contains(x) || x == a),
{
    assert forall|x: A| #[trigger] s.push(a).contains(x) <==> (s.contains(x) || x == a) by {
        if s.push(a).contains(x) {
            let i = choose|i: int| 0 <= i < s.push(a).len() && s.push(a)[i] == x;
            if i < s.len() {
                assert(s[i] == x);
            }
        }
        if s.contains(x) {
            let i = choose|i: int| 0 <= i < s.len() && s[i] == x;
            assert(s.push(a)[i] == x);
        }
        if x == a {
            assert(s.push(a)[s.len() as int] == x);
        }
    }
}

proof fn lemma_push_unique(s: Seq<Seq<char>>, a: Seq<char>)
    requires
        spec_unique(s),
        !s.contains(a),
    ensures
        spec_unique(s.push(a)),
{
    assert forall|i: int, j: int| 0 <= i < j < s.push(a).len() implies s.push(a)[i] != s.push(
        a,
    )[j] by {
        if j < s.len() {
            assert(s[i] != s[j]);
        } else {
            assert(s.push(a)[j] == a);
            assert(s.push(a)[i] == s[i]);
            assert(s.contains(s[i]));
        }
    }
}

/// What one reconciliation step found: the names that appeared, the names
/// that vanished, and the known-set to carry to the next poll.
pub struct ReconcileOutcome {
    pub connected: Vec<String>,
    pub disconnected: Vec<String>,
    pub known: Vec<String>,
}

/// Reconciles the known-set of device names against a fresh scan: a name
/// absent before and present now is connected, one present before and
/// absent now is disconnected, and the known-set becomes the scanned set.
/// Cross-name order is not significant; no name is reported twice.
pub fn reconcile(known: &Vec<String>, current: &Vec<String>) -> (r: ReconcileOutcome)
    requires
        spec_unique(known.deep_view()),
    ensures
        spec_unique(r.connected.deep_view()),
        spec_unique(r.disconnected.deep_view()),
        spec_unique(r.known.deep_view()),
        forall|x: Seq<char>|
            #[trigger] r.connected.deep_view().contains(x) <==> (current.deep_view().contains(x)
                && !known.deep_view().contains(x)),
        forall|x: Seq<char>|
            #[trigger] r.disconnected.deep_view().contains(x) <==> (known.deep_view().contains(x)
                && !current.deep_view().contains(x)),
        forall|x: Seq<char>|
            #[trigger] r.known.deep_view().contains(x) <==> current.deep_view().contains(x),
{
    let mut connected: Vec<String> = Vec::new();
    let mut new_known: Vec<String> = Vec::new();
    let mut i: usize = 0;
    while i < current.len()
        invariant
            i <= current@.len(),
            spec_unique(connected.deep_view()),
            spec_unique(new_known.deep_view()),
            forall|x: Seq<char>|
                #[trigger] connected.deep_view().contains(x) <==> (
                current.deep_view().subrange(0, i as int).contains(x)
                    && !known.deep_view().contains(x)),
            forall|x: Seq<char>|
                #[trigger] new_known.deep_view().contains(x) <==> current.deep_view().subrange(
                    0,
                    i as int,
                ).contains(x),
        decreases current@.len() - i,
    {
        let ghost pre = current.deep_view().subrange(0, i as int);
        let ghost post = current.deep_view().subrange(0, i + 1);
        let ghost name = current@[i as int]@;
        proof {
            assert(pre =~= post.drop_last());
            assert(post.last() == current.deep_view()[i as int]);
            assert(current.deep_view()[i as int] == name);
            lemma_push_contains(pre, name);
            assert(pre.push(name) =~= post);
        }
        if !contains_str(known, current[i].as_str()) && !contains_str(
            &connected,
            current[i].as_str(),
        ) {
            proof {
                lemma_push_contains(connected.deep_view(), name);
                lemma_push_unique(connected.deep_view(), name);
            }
            push_name(&mut connected, current[i].clone());
        }
        if !contains_str(&new_known, current[i].as_str()) {
            proof {
                lemma_push_contains(new_known.deep_view(), name);
                lemma_push_unique(new_known.deep_view(), name);
            }
            push_name(&mut new_known, current[i].clone());
        }
        i = i + 1;
    }
    proof {
        assert(current.deep_view().subrange(0, current@.len() as int) =~= current.deep_view());
    }
    let mut disconnected: Vec<String> = Vec::new();
    let mut k: usize = 0;
    while k < known.len()
        invariant
            k <= known@.len(),
            spec_unique(known.deep_view()),
            spec_unique(disconnected.deep_view()),
            forall|x: Seq<char>|
                #[trigger] disconnected.deep_view().contains(x) <==> (
                known.deep_view().subrange(0, k as int).contains(x)
                    && !current.deep_view().contains(x)),
        decreases known@.len() - k,
    {
        let ghost pre = known.deep_view().subrange(0, k as int);
        let ghost post = known.deep_view().subrange(0, k + 1);
        let ghost name = known@[k as int]@;
        proof {
            assert(pre =~= post.drop_last());
            assert(post.last() == known.deep_view()[k as int]);
            assert(known.deep_view()[k as int] == name);
            lemma_push_contains(pre, name);
            assert(pre.push(name) =~= post);
        }
        if !contains_str(current, known[k].as_str()) {
            proof {
                assert forall|j: int| 0 <= j < k implies known.deep_view()[j] != name by {}
                assert(!disconnected.deep_view().contains(name));
                lemma_push_contains(disconnected.deep_view(), name);
                lemma_push_unique(disconnected.deep_view(), name);
            }
            push_name(&mut disconnected, known[k].clone());
        }
        k = k + 1;
    }
    proof {
        assert(known.deep_view().subrange(0, known@.len() as int) =~= known.deep_view());
        assert(current.deep_view().subrange(0, current@.len() as int) =~= current.deep_view());
    }
    ReconcileOutcome { connected, disconnected, known: new_known }
}

/// The kind of a filesystem event under the volumes directory.
pub enum WatchEventKind {
    Created,
    Removed,
    Other,
}

/// A lifecycle notification for the caller to emit: a device appeared, or
/// the volume with the given name vanished.
pub enum WatchNotification {
    Connected(DetectedDevice),
    Disconnected(String),
}

/// The names among `paths` whose last component names a known device; for
/// a removal the path need not resolve any more, its name decides.
pub open spec fn spec_removed_names(paths: Seq<Seq<char>>) -> Seq<Seq<char>>
    decreases paths.len(),
{
    if paths.len() == 0 {
        Seq::empty()
    } else {
        let head = match spec_volume_name(paths.first()) {
            Some(name) => if spec_is_device_label(name) {
                seq![name]
            } else {
                Seq::empty()
            },
            None => Seq::empty(),
        };
        head + spec_removed_names(paths.drop_first())
    }
}

fn created_actions(paths: &Vec<String>) -> (r: Vec<WatchNotification>)
    ensures
        r@.len() == spec_device_paths(paths.deep_view()).len(),
        forall|k: int|
            0 <= k < r@.len() ==> ((#[trigger] r@[k]) matches WatchNotification::Connected(d)
                && d.path@ == spec_device_paths(paths.deep_view())[k] && spec_volume_name(d.path@)
                == Some(d.name@) && spec_is_device_label(d.name@) && d.config_path@
                == spec_config_path(d.path@)),
{
    let mut devices = classify_entries(paths);
    let ghost all = devices@;
    let mut out: Vec<WatchNotification> = Vec::new();
    while devices.len() > 0
        invariant
            out@.len() + devices@.len() == all.len(),
            devices@ == all.skip(out@.len() as int),
            forall|k: int|
                0 <= k < out@.len() ==> ((#[trigger] out@[k])
                    matches WatchNotification::Connected(d) && d == all[k]),
        decreases devices@.len(),
    {
        proof {
            assert(devices@[0] == all[out@.len() as int]);
            assert(devices@.remove(0) =~= all.skip((out@.len() + 1) as int));
        }
        let device = devices.remove(0);
        out.push(WatchNotification::Connected(device));
    }
    proof {
        assert forall|k: int|
            0 <= k < out@.len() implies ((#[trigger] out@[k])
            matches WatchNotification::Connected(d) && d.path@ == spec_device_paths(
            paths.deep_view(),
        )[k] && spec_volume_name(d.path@) == Some(d.name@) && spec_is_device_label(d.name@)
            && d.config_path@ == spec_config_path(d.path@)) by {
            assert(all[k].path@ == spec_device_paths(paths.deep_view())[k]);
        }
    }
    out
}

fn removed_actions(paths: &Vec<String>, i: usize) -> (r: Vec<WatchNotification>)
    requires
        i <= paths@.len(),
    ensures
        r@.len() == spec_removed_names(paths.deep_view().skip(i as int)).len(),
        forall|k: int|
            0 <= k < r@.len() ==> ((#[trigger] r@[k]) matches WatchNotification::Disconnected(
            name,
            ) && name@ == spec_removed_names(paths.deep_view().skip(i as int))[k]),
    decreases paths@.len() - i,
{
    let ghost s = paths.deep_view().skip(i as int);
    if i == paths.len() {
        proof {
            assert(s =~= Seq::<Seq<char>>::empty());
        }
        Vec::new()
    } else {
        proof {
            assert(s.first() == paths.deep_view()[i as int]);
            assert(paths.deep_view()[i as int] == paths@[i as int]@);
            assert(s.drop_first() =~= paths.deep_view().skip(i + 1));
        }
        let mut rest = removed_actions(paths, i + 1);
        match get_volume_name(paths[i].as_str()) {
            Some(name) => {
                if is_device_label(name.as_str()) {
                    rest.insert(0, WatchNotification::Disconnected(name));
                    proof {
                        assert(spec_removed_names(s) =~= seq![
                            spec_volume_name(s.first()).unwrap(),
                        ] + spec_removed_names(s.drop_first()));
                    }
                    rest
                } else {
                    proof {
                        assert(spec_removed_names(s) =~= spec_removed_names(s.drop_first()));
                    }
                    rest
                }
            },
            None => {
                proof {
                    assert(spec_removed_names(s) =~= spec_removed_names(s.drop_first()));
                }
                rest
            },
        }
    }
}

/// Turns one filesystem event into the notifications to emit: on creation,
/// a connect for every affected path that classifies as a device; on
/// removal, a disconnect for every affected path whose name is a device
/// label, whether or not the path still resolves; anything else is
/// ignored.
pub fn watch_event_actions(kind: WatchEventKind, paths: &Vec<String>) -> (r: Vec<
    WatchNotification,
>)
    ensures
        kind is Other ==> r@.len() == 0,
        kind is Removed ==> {
            &&& r@.len() == spec_removed_names(paths.deep_view()).len()
            &&& forall|k: int|
                0 <= k < r@.len() ==> ((#[trigger] r@[k]) matches WatchNotification::Disconnected(
                name,
                ) && name@ == spec_removed_names(paths.deep_view())[k])
        },
        kind is Created ==> {
            &&& r@.len() == spec_device_paths(paths.deep_view()).len()
            &&& forall|k: int|
                0 <= k < r@.len() ==> ((#[trigger] r@[k]) matches WatchNotification::Connected(d)
                    && d.path@ == spec_device_paths(paths.deep_view())[k] && spec_volume_name(
                    d.path@,
                ) == Some(d.name@) && spec_is_device_label(d.name@) && d.config_path@
                    == spec_config_path(d.path@))
        },
{
    proof {
        assert(paths.deep_view().skip(0) =~= paths.deep_view());
    }
    match kind {
        WatchEventKind::Other => Vec::new(),
        WatchEventKind::Created => created_actions(paths),
        WatchEventKind::Removed => removed_actions(paths, 0),
    }
}

} // verus!
