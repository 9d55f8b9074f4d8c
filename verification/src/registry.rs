//! What is asked of the kernel's registry of watches, and a model of the
//! registry that says what the asking achieves.
//!
//! The registry keeps a handle for every registration, so a path registered
//! twice would be reported twice. A path is therefore always deregistered
//! before it is registered.

use vstd::multiset::Multiset;
use vstd::prelude::*;

verus! {

/// What can happen to a watched file or directory.
#[derive(Clone, Copy, Debug, PartialEq, Eq)]
pub enum VnodeEvent {
    /// It was removed.
    Delete,
    /// Its content changed.
    Write,
    /// It grew.
    Extend,
    /// Its attributes changed.
    Attrib,
    /// Its link count changed.
    Link,
    /// It was renamed.
    Rename,
    /// Access to it was revoked.
    Revoke,
}

/// Whether a registration asks for `event`: tailing asks for writes,
/// extensions, deletions, renames and links.
pub open spec fn spec_is_watched(event: VnodeEvent) -> bool {
    event != VnodeEvent::Attrib && event != VnodeEvent::Revoke
}

/// Decides whether a registration asks for `event`.
pub fn is_watched(event: VnodeEvent) -> (watched: bool)
    ensures
        watched == spec_is_watched(event),
{
    match event {
        VnodeEvent::Delete => true,
        VnodeEvent::Write => true,
        VnodeEvent::Extend => true,
        VnodeEvent::Attrib => false,
        VnodeEvent::Link => true,
        VnodeEvent::Rename => true,
        VnodeEvent::Revoke => false,
    }
}

/// What an operation does to the registry.
#[derive(Clone, Copy, Debug, PartialEq, Eq)]
pub enum OpKind {
    /// Drops every handle of the path.
    Deregister,
    /// Opens the path and registers it for the events that are watched.
    Register,
}

/// One operation on the registry.
#[derive(Clone, Debug)]
pub struct RegistryOp {
    /// What is done.
    pub kind: OpKind,
    /// The path it is done to.
    pub path: String,
}

impl View for RegistryOp {
    type V = (OpKind, Seq<char>);

    open spec fn view(&self) -> (OpKind, Seq<char>) {
        (self.kind, self.path@)
    }
}

/// What a vector of operations holds.
pub open spec fn op_views(ops: Seq<RegistryOp>) -> Seq<(OpKind, Seq<char>)> {
    ops.map_values(|op: RegistryOp| op@)
}

/// The operations that put `path` under watch: its deregistration, then its
/// registration.
pub open spec fn spec_watch_file(path: Seq<char>) -> Seq<(OpKind, Seq<char>)> {
    seq![(OpKind::Deregister, path), (OpKind::Register, path)]
}

/// The operations that put every path of `paths` under watch, in the order
/// of `paths`.
pub open spec fn spec_watch_all(paths: Seq<Seq<char>>) -> Seq<(OpKind, Seq<char>)>
    decreases paths.len(),
{
    if paths.len() == 0 {
        Seq::empty()
    } else {
        spec_watch_all(paths.drop_last()) + spec_watch_file(paths.last())
    }
}

/// The registry's handles after one operation. A registration that fails,
/// because the path cannot be opened, adds no handle; a deregistration drops
/// the path's handles whether or not the kernel confirms it.
pub open spec fn handles_after(
    handles: Multiset<Seq<char>>,
    op: (OpKind, Seq<char>),
    done: bool,
) -> Multiset<Seq<char>> {
    match op.0 {
        OpKind::Deregister => handles.update(op.1, 0),
        OpKind::Register => if done {
            handles.insert(op.1)
        } else {
            handles
        },
    }
}

/// The registry's handles after a run of operations, of which `done` says
/// one by one whether it succeeded.
pub open spec fn handles_after_all(
    handles: Multiset<Seq<char>>,
    ops: Seq<(OpKind, Seq<char>)>,
    done: Seq<bool>,
) -> Multiset<Seq<char>>
    decreases ops.len(),
{
    if ops.len() == 0 || done.len() != ops.len() {
        handles
    } else {
        handles_after(
            handles_after_all(handles, ops.drop_last(), done.drop_last()),
            ops.last(),
            done.last(),
        )
    }
}

/// Puts `path` under watch: whatever handle it has is dropped before it is
/// registered.
pub fn watch_file(path: &str) -> (ops: Vec<RegistryOp>)
    ensures
        op_views(ops@) == spec_watch_file(path@),
{
    let mut ops: Vec<RegistryOp> = Vec::new();
    ops.push(RegistryOp { kind: OpKind::Deregister, path: path.to_owned() });
    ops.push(RegistryOp { kind: OpKind::Register, path: path.to_owned() });
    assert(op_views(ops@) =~= spec_watch_file(path@));
    ops
}

/// Puts every entry that a walk found under watch, in the order in which
/// the walk gave them.
pub fn watch_all(paths: &Vec<String>) -> (ops: Vec<RegistryOp>)
    ensures
        op_views(ops@) == spec_watch_all(paths.deep_view()),
{
    let mut ops: Vec<RegistryOp> = Vec::new();
    let mut i: usize = 0;
    assert(paths.deep_view().take(0) =~= Seq::<Seq<char>>::empty());
    assert(op_views(ops@) =~= Seq::<(OpKind, Seq<char>)>::empty());
    while i < paths.len()
        invariant
            i <= paths@.len(),
            op_views(ops@) == spec_watch_all(paths.deep_view().take(i as int)),
        decreases paths@.len() - i,
    {
        let ghost before = op_views(ops@);
        let path = paths[i].as_str();
        ops.push(RegistryOp { kind: OpKind::Deregister, path: path.to_owned() });
        ops.push(RegistryOp { kind: OpKind::Register, path: path.to_owned() });
        proof {
            let next = paths.deep_view().take(i + 1);
            assert(next.drop_last() =~= paths.deep_view().take(i as int));
            assert(next.last() == path@);
            assert(op_views(ops@) =~= before + spec_watch_file(path@));
        }
        i += 1;
    }
    assert(paths.deep_view().take(i as int) =~= paths.deep_view());
    ops
}

/// Putting one path under watch leaves it with one handle where its
/// registration succeeded and with none where it failed, and leaves the
/// handles of every other path as they were.
pub proof fn law_watch_file(
    handles: Multiset<Seq<char>>,
    path: Seq<char>,
    other: Seq<char>,
    done: Seq<bool>,
)
    requires
        done.len() == 2,
        other != path,
    ensures
        handles_after_all(handles, spec_watch_file(path), done).count(path) == (if done[1] {
            1nat
        } else {
            0nat
        }),
        handles_after_all(handles, spec_watch_file(path), done).count(other) == handles.count(
            other,
        ),
{
    broadcast use vstd::multiset::group_multiset_axioms;

    let ops = spec_watch_file(path);
    let first_ops = ops.drop_last();
    let first_done = done.drop_last();
    assert(first_ops.drop_last().len() == 0);
    assert(first_ops.last() == (OpKind::Deregister, path));
    assert(ops.last() == (OpKind::Register, path));
    let cleared = handles_after_all(handles, first_ops, first_done);
    assert(handles_after_all(handles, first_ops.drop_last(), first_done.drop_last()) == handles);
    assert(cleared == handles.update(path, 0));
    vstd::multiset::lemma_update_same(handles, path, 0);
    vstd::multiset::lemma_update_different(handles, path, 0, other);
}

/// Two operations are asked for each path.
pub proof fn lemma_watch_all_len(paths: Seq<Seq<char>>)
    ensures
        spec_watch_all(paths).len() == 2 * paths.len(),
    decreases paths.len(),
{
    if paths.len() > 0 {
        lemma_watch_all_len(paths.drop_last());
    }
}

/// Putting the entries of a walk under watch never leaves a path with more
/// than one handle, whatever handles there were before and whichever
/// registrations fail. Where every registration succeeds, each entry has
/// exactly one handle. The handles of paths that the walk did not give are
/// as they were.
pub proof fn law_watch_all(
    handles: Multiset<Seq<char>>,
    paths: Seq<Seq<char>>,
    done: Seq<bool>,
    path: Seq<char>,
)
    requires
        done.len() == 2 * paths.len(),
    ensures
        ({
            let after = handles_after_all(handles, spec_watch_all(paths), done);
            &&& paths.contains(path) ==> after.count(path) <= 1
            &&& paths.contains(path) && (forall|k: int| 0 <= k < done.len() ==> done[k])
                ==> after.count(path) == 1
            &&& !paths.contains(path) ==> after.count(path) == handles.count(path)
        }),
    decreases paths.len(),
{
    broadcast use vstd::multiset::group_multiset_axioms;

    if paths.len() > 0 {
        let init = paths.drop_last();
        let last = paths.last();
        let ops = spec_watch_all(paths);
        lemma_watch_all_len(init);
        let ops_1 = ops.drop_last();
        let ops_2 = ops_1.drop_last();
        let done_1 = done.drop_last();
        let done_2 = done_1.drop_last();
        assert(ops_2 =~= spec_watch_all(init));
        assert(ops.last() == (OpKind::Register, last));
        assert(ops_1.last() == (OpKind::Deregister, last));
        law_watch_all(handles, init, done_2, path);
        let mid = handles_after_all(handles, ops_2, done_2);
        let cleared = handles_after_all(handles, ops_1, done_1);
        assert(cleared == mid.update(last, 0));
        vstd::multiset::lemma_update_same(mid, last, 0);
        if path != last {
            vstd::multiset::lemma_update_different(mid, last, 0, path);
        }
        assert(paths.contains(path) <==> init.contains(path) || path == last) by {
            if init.contains(path) {
                let k = choose|k: int| 0 <= k < init.len() && init[k] == path;
                assert(paths[k] == path);
            }
            if path == last {
                assert(paths[paths.len() - 1] == path);
            }
            if paths.contains(path) && path != last {
                let k = choose|k: int| 0 <= k < paths.len() && paths[k] == path;
                assert(init[k] == path);
            }
        }
        if forall|k: int| 0 <= k < done.len() ==> done[k] {
            assert(done.last());
            assert forall|k: int| 0 <= k < done_2.len() implies done_2[k] by {
                assert(done_2[k] == done[k]);
            }
        }
    } else {
        assert(!paths.contains(path));
    }
}

} // verus!
