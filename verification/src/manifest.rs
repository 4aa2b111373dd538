//! The package manifest: a breadth-first listing of every regular file in
//! a package tree.
//!
//! A queue of pending directories is seeded with the root; each dequeued
//! directory contributes one `file:<relative-path>` line per regular file
//! and enqueues its subdirectories. Paths are relative to the root with
//! `/` separators; the manifest's own name and the package manager's
//! bookkeeping files are never listed, wherever they sit. Sibling order is
//! the order the directory was listed in.

use vstd::prelude::*;

verus! {

/// One entry of a directory tree, in native listing order.
pub enum FsNode {
    File { name: String },
    Dir { name: String, entries: Vec<FsNode> },
}

/// The names that never appear in a manifest: the manifest itself and the
/// package manager's bookkeeping files.
pub open spec fn spec_excluded_name(name: Seq<char>) -> bool {
    ||| name == "manifest.in"@
    ||| name == ".crates2.json"@
    ||| name == ".crates.toml"@
}

/// Tests a file name against the excluded set.
pub fn excluded_name(name: &String) -> (r: bool)
    ensures
        r == spec_excluded_name(name@),
{
    let manifest: String = "manifest.in".to_owned();
    let crates_json: String = ".crates2.json".to_owned();
    let crates_toml: String = ".crates.toml".to_owned();
    *name == manifest || *name == crates_json || *name == crates_toml
}

/// The weight of one tree node: itself plus everything below it.
pub open spec fn spec_node_size(node: FsNode) -> nat
    decreases node,
{
    match node {
        FsNode::File { .. } => 1,
        FsNode::Dir { entries, .. } => 1 + spec_entries_size(entries@),
    }
}

/// The combined weight of a listing.
pub open spec fn spec_entries_size(entries: Seq<FsNode>) -> nat
    decreases entries,
{
    if entries.len() == 0 {
        0
    } else {
        spec_entries_size(entries.drop_last()) + spec_node_size(entries.last())
    }
}

/// The combined weight of the pending-directory queue, counting each
/// pending directory once plus its contents.
pub open spec fn spec_queue_size(queue: Seq<(Seq<char>, Seq<FsNode>)>) -> nat
    decreases queue.len(),
{
    if queue.len() == 0 {
        0
    } else {
        spec_queue_size(queue.drop_last()) + 1 + spec_entries_size(queue.last().1)
    }
}

/// The manifest lines one directory listing contributes: one
/// `file:<prefix><name>` line per regular file whose name is not excluded,
/// in listing order.
pub open spec fn spec_level_lines(prefix: Seq<char>, entries: Seq<FsNode>) -> Seq<Seq<char>>
    decreases entries.len(),
{
    if entries.len() == 0 {
        Seq::empty()
    } else {
        let rest = spec_level_lines(prefix, entries.drop_last());
        match entries.last() {
            FsNode::File { name } => if spec_excluded_name(name@) {
                rest
            } else {
                rest.push("file:"@ + prefix + name@)
            },
            FsNode::Dir { .. } => rest,
        }
    }
}

/// The pending-directory items one directory listing enqueues: its
/// subdirectories, in listing order, each under its extended prefix.
pub open spec fn spec_level_dirs(prefix: Seq<char>, entries: Seq<FsNode>) -> Seq<
    (Seq<char>, Seq<FsNode>),
>
    decreases entries.len(),
{
    if entries.len() == 0 {
        Seq::empty()
    } else {
        let rest = spec_level_dirs(prefix, entries.drop_last());
        match entries.last() {
            FsNode::Dir { name, entries: sub } => rest.push((prefix + name@ + "/"@, sub@)),
            FsNode::File { .. } => rest,
        }
    }
}

proof fn lemma_queue_size_concat(a: Seq<(Seq<char>, Seq<FsNode>)>, b: Seq<(Seq<char>, Seq<FsNode>)>)
    ensures
        spec_queue_size(a + b) == spec_queue_size(a) + spec_queue_size(b),
    decreases b.len(),
{
    if b.len() == 0 {
        assert(a + b =~= a);
    } else {
        lemma_queue_size_concat(a, b.drop_last());
        assert((a + b).drop_last() =~= a + b.drop_last());
    }
}

proof fn lemma_level_dirs_size(prefix: Seq<char>, entries: Seq<FsNode>)
    ensures
        spec_queue_size(spec_level_dirs(prefix, entries)) <= spec_entries_size(entries),
    decreases entries.len(),
{
    if entries.len() > 0 {
        lemma_level_dirs_size(prefix, entries.drop_last());
        assert(spec_entries_size(entries) == spec_entries_size(entries.drop_last())
            + spec_node_size(entries.last()));
        match entries.last() {
            FsNode::Dir { name, entries: sub } => {
                let rest = spec_level_dirs(prefix, entries.drop_last());
                let item = (prefix + name@ + "/"@, sub@);
                assert(spec_level_dirs(prefix, entries) == rest.push(item));
                assert(rest.push(item).drop_last() =~= rest);
                assert(rest.push(item).last() == item);
                assert(spec_queue_size(rest.push(item)) == spec_queue_size(rest) + 1
                    + spec_entries_size(sub@));
                assert(spec_node_size(entries.last()) == 1 + spec_entries_size(sub@));
            },
            FsNode::File { .. } => {
                assert(spec_level_dirs(prefix, entries) == spec_level_dirs(
                    prefix,
                    entries.drop_last(),
                ));
                assert(spec_node_size(entries.last()) == 1);
            },
        }
    }
}

proof fn lemma_queue_size_first(queue: Seq<(Seq<char>, Seq<FsNode>)>)
    requires
        queue.len() > 0,
    ensures
        spec_queue_size(queue) == 1 + spec_entries_size(queue[0].1) + spec_queue_size(
            queue.drop_first(),
        ),
{
    assert(queue =~= seq![queue[0]] + queue.drop_first());
    lemma_queue_size_concat(seq![queue[0]], queue.drop_first());
    assert(seq![queue[0]].drop_last() =~= Seq::<(Seq<char>, Seq<FsNode>)>::empty());
    assert(spec_queue_size(seq![queue[0]].drop_last()) == 0);
    assert(seq![queue[0]].last() == queue[0]);
    assert(spec_queue_size(seq![queue[0]]) == 1 + spec_entries_size(queue[0].1));
}

/// The whole manifest produced from a pending-directory queue, breadth
/// first: the head directory's file lines, then the manifest of the rest
/// of the queue with the head's subdirectories appended.
pub open spec fn spec_bfs_lines(queue: Seq<(Seq<char>, Seq<FsNode>)>) -> Seq<Seq<char>>
    decreases spec_queue_size(queue),
    via spec_bfs_lines_decreases
{
    if queue.len() == 0 {
        Seq::empty()
    } else {
        spec_level_lines(queue[0].0, queue[0].1) + spec_bfs_lines(
            queue.drop_first() + spec_level_dirs(queue[0].0, queue[0].1),
        )
    }
}

#[via_fn]
proof fn spec_bfs_lines_decreases(queue: Seq<(Seq<char>, Seq<FsNode>)>) {
    if queue.len() > 0 {
        lemma_queue_size_concat(queue.drop_first(), spec_level_dirs(queue[0].0, queue[0].1));
        lemma_level_dirs_size(queue[0].0, queue[0].1);
        lemma_queue_size_first(queue);
    }
}

/// The manifest of a package tree: what `spec_bfs_lines` yields for the
/// queue holding just the root's listing.
pub open spec fn spec_manifest_lines(root_entries: Seq<FsNode>) -> Seq<Seq<char>> {
    spec_bfs_lines(seq![(Seq::<char>::empty(), root_entries)])
}

/// Produces the manifest lines of a package tree, breadth first.
///
/// Every regular file below the root contributes `file:<relative-path>`
/// with `/` separators, except files carrying an excluded name; no
/// directory and nothing else is listed.
pub fn write_directory_entries(root_entries: Vec<FsNode>) -> (lines: Vec<String>)
    ensures
        lines@.map_values(|l: String| l@) == spec_manifest_lines(root_entries@),
{
    let ghost initial: Seq<(Seq<char>, Seq<FsNode>)> = seq![
        (Seq::<char>::empty(), root_entries@),
    ];
    let mut queue: Vec<(String, Vec<FsNode>)> = Vec::new();
    queue.push((String::new(), root_entries));
    let mut lines: Vec<String> = Vec::new();
    proof {
        assert(queue@.map_values(|q: (String, Vec<FsNode>)| (q.0@, q.1@)) =~= initial);
        assert(lines@.map_values(|l: String| l@) + spec_bfs_lines(initial) =~= spec_bfs_lines(
            initial,
        ));
    }
    while queue.len() > 0
        invariant
            lines@.map_values(|l: String| l@) + spec_bfs_lines(
                queue@.map_values(|q: (String, Vec<FsNode>)| (q.0@, q.1@)),
            ) == spec_bfs_lines(initial),
        decreases spec_queue_size(queue@.map_values(|q: (String, Vec<FsNode>)| (q.0@, q.1@))),
    {
        let ghost queue0 = queue@.map_values(|q: (String, Vec<FsNode>)| (q.0@, q.1@));
        let (prefix, mut entries) = queue.remove(0);
        let ghost qrest = queue@.map_values(|q: (String, Vec<FsNode>)| (q.0@, q.1@));
        let ghost prefix0 = prefix@;
        let ghost orig = entries@;
        let ghost lines0 = lines@.map_values(|l: String| l@);
        proof {
            assert(queue0[0] == (prefix0, orig));
            assert(qrest =~= queue0.drop_first());
            assert(qrest + spec_level_dirs(prefix0, orig.take(0)) =~= qrest);
            assert(orig.take(0) =~= Seq::<FsNode>::empty());
            assert(lines0 + spec_level_lines(prefix0, orig.take(0)) =~= lines0);
        }
        let ghost mut k: int = 0;
        while entries.len() > 0
            invariant
                0 <= k <= orig.len(),
                entries@ == orig.skip(k),
                prefix@ == prefix0,
                lines@.map_values(|l: String| l@) == lines0 + spec_level_lines(
                    prefix0,
                    orig.take(k),
                ),
                queue@.map_values(|q: (String, Vec<FsNode>)| (q.0@, q.1@)) == qrest
                    + spec_level_dirs(prefix0, orig.take(k)),
            decreases entries@.len(),
        {
            proof {
                assert(orig.take(k + 1).drop_last() =~= orig.take(k));
                assert(orig.skip(k)[0] == orig[k]);
                assert(orig.take(k + 1).last() == orig[k]);
            }
            let entry = entries.remove(0);
            proof {
                assert(entries@ =~= orig.skip(k + 1));
            }
            match entry {
                FsNode::File { name } => {
                    if !excluded_name(&name) {
                        let mut line: String = "file:".to_owned();
                        line.append(prefix.as_str());
                        line.append(name.as_str());
                        lines.push(line);
                        proof {
                            assert(lines@.map_values(|l: String| l@) =~= (lines0
                                + spec_level_lines(prefix0, orig.take(k))).push(
                                "file:"@ + prefix0 + name@,
                            ));
                            assert(lines0 + spec_level_lines(prefix0, orig.take(k + 1)) =~= (
                            lines0 + spec_level_lines(prefix0, orig.take(k))).push(
                                "file:"@ + prefix0 + name@,
                            ));
                        }
                    }
                },
                FsNode::Dir { name, entries: sub } => {
                    let mut child: String = prefix.clone();
                    child.append(name.as_str());
                    child.append("/");
                    let ghost subview = sub@;
                    queue.push((child, sub));
                    proof {
                        assert(queue@.map_values(|q: (String, Vec<FsNode>)| (q.0@, q.1@)) =~= (
                        qrest + spec_level_dirs(prefix0, orig.take(k))).push(
                            (prefix0 + name@ + "/"@, subview),
                        ));
                        assert(qrest + spec_level_dirs(prefix0, orig.take(k + 1)) =~= (qrest
                            + spec_level_dirs(prefix0, orig.take(k))).push(
                            (prefix0 + name@ + "/"@, subview),
                        ));
                    }
                },
            }
            proof {
                k = k + 1;
            }
        }
        proof {
            assert(orig.take(k) =~= orig);
            assert(spec_bfs_lines(queue0) == spec_level_lines(prefix0, orig) + spec_bfs_lines(
                queue0.drop_first() + spec_level_dirs(prefix0, orig),
            ));
            assert(queue@.map_values(|q: (String, Vec<FsNode>)| (q.0@, q.1@)) == qrest
                + spec_level_dirs(prefix0, orig));
            assert(lines0 + spec_level_lines(prefix0, orig) + spec_bfs_lines(
                qrest + spec_level_dirs(prefix0, orig),
            ) =~= lines0 + (spec_level_lines(prefix0, orig) + spec_bfs_lines(
                qrest + spec_level_dirs(prefix0, orig),
            )));
            lemma_queue_size_concat(qrest, spec_level_dirs(prefix0, orig));
            lemma_level_dirs_size(prefix0, orig);
            lemma_queue_size_first(queue0);
        }
    }
    proof {
        assert(queue@.map_values(|q: (String, Vec<FsNode>)| (q.0@, q.1@)) =~= Seq::<
            (Seq<char>, Seq<FsNode>),
        >::empty());
        assert(lines@.map_values(|l: String| l@) + Seq::<Seq<char>>::empty() =~= lines@.map_values(
            |l: String| l@,
        ));
    }
    lines
}

/// A name as a directory entry carries it: free of separators.
pub open spec fn spec_plain_name(name: Seq<char>) -> bool {
    forall|j: int| 0 <= j < name.len() ==> name[j] != '/'
}

/// A well-formed tree node: its name is a plain entry name, and so is
/// every name below it.
pub open spec fn wf_node(node: FsNode) -> bool
    decreases node,
{
    match node {
        FsNode::File { name } => spec_plain_name(name@),
        FsNode::Dir { name, entries } => spec_plain_name(name@) && wf_entries(entries@),
    }
}

/// A well-formed listing: every entry in it is well formed.
pub open spec fn wf_entries(entries: Seq<FsNode>) -> bool
    decreases entries,
{
    forall|i: int| 0 <= i < entries.len() ==> wf_node(#[trigger] entries[i])
}

/// A prefix as the traversal builds them: empty at the root, otherwise
/// ending in the separator it appended.
pub open spec fn spec_closed_prefix(p: Seq<char>) -> bool {
    p.len() == 0 || p.last() == '/'
}

/// Every pending queue item carries a traversal-built prefix and a
/// well-formed listing.
pub open spec fn wf_queue(queue: Seq<(Seq<char>, Seq<FsNode>)>) -> bool {
    forall|i: int|
        0 <= i < queue.len() ==> spec_closed_prefix(#[trigger] queue[i].0) && wf_entries(
            queue[i].1,
        )
}

/// What every manifest line looks like: a `file:`-prefixed relative path
/// whose final component is not an excluded name.
pub open spec fn spec_line_ok(line: Seq<char>) -> bool {
    exists|rel: Seq<char>|
        #![auto]
        line == "file:"@ + rel && !spec_excluded_name(crate::utils::spec_file_name(rel))
}

proof fn lemma_last_slash_append(prefix: Seq<char>, name: Seq<char>)
    requires
        spec_plain_name(name),
    ensures
        crate::utils::spec_last_slash(prefix + name) == crate::utils::spec_last_slash(prefix),
    decreases name.len(),
{
    if name.len() == 0 {
        assert(prefix + name =~= prefix);
    } else {
        assert((prefix + name).last() == name.last());
        assert(name.last() != '/');
        assert((prefix + name).drop_last() =~= prefix + name.drop_last());
        assert(spec_plain_name(name.drop_last()));
        lemma_last_slash_append(prefix, name.drop_last());
    }
}

proof fn lemma_file_name_append(prefix: Seq<char>, name: Seq<char>)
    requires
        spec_closed_prefix(prefix),
        spec_plain_name(name),
    ensures
        crate::utils::spec_file_name(prefix + name) == name,
{
    lemma_last_slash_append(prefix, name);
    if prefix.len() == 0 {
        assert(crate::utils::spec_last_slash(prefix) is None);
        assert(prefix + name =~= name);
    } else {
        assert(crate::utils::spec_last_slash(prefix) == Some(prefix.len() - 1));
        assert((prefix + name).skip(prefix.len() as int) =~= name);
    }
}

proof fn lemma_level_lines_shape(prefix: Seq<char>, entries: Seq<FsNode>)
    requires
        spec_closed_prefix(prefix),
        wf_entries(entries),
    ensures
        forall|i: int|
            0 <= i < spec_level_lines(prefix, entries).len() ==> spec_line_ok(
                #[trigger] spec_level_lines(prefix, entries)[i],
            ),
    decreases entries.len(),
{
    if entries.len() > 0 {
        assert(wf_entries(entries.drop_last()));
        lemma_level_lines_shape(prefix, entries.drop_last());
        let rest = spec_level_lines(prefix, entries.drop_last());
        match entries.last() {
            FsNode::File { name } => {
                if !spec_excluded_name(name@) {
                    assert(wf_node(entries[entries.len() - 1]));
                    lemma_file_name_append(prefix, name@);
                    assert(spec_line_ok("file:"@ + (prefix + name@))) by {
                        assert("file:"@ + (prefix + name@) =~= "file:"@ + (prefix + name@));
                    }
                    assert("file:"@ + prefix + name@ =~= "file:"@ + (prefix + name@));
                    assert(spec_level_lines(prefix, entries) == rest.push(
                        "file:"@ + prefix + name@,
                    ));
                }
            },
            FsNode::Dir { .. } => {},
        }
    }
}

proof fn lemma_level_dirs_wf(prefix: Seq<char>, entries: Seq<FsNode>)
    requires
        spec_closed_prefix(prefix),
        wf_entries(entries),
    ensures
        wf_queue(spec_level_dirs(prefix, entries)),
    decreases entries.len(),
{
    if entries.len() > 0 {
        assert(wf_entries(entries.drop_last()));
        lemma_level_dirs_wf(prefix, entries.drop_last());
        match entries.last() {
            FsNode::Dir { name, entries: sub } => {
                assert(wf_node(entries[entries.len() - 1]));
                let child = prefix + name@ + "/"@;
                assert(spec_closed_prefix(child)) by {
                    assert("/"@.len() == 1) by {
                        reveal_strlit("/");
                    }
                    assert(child.last() == "/"@[0]);
                    assert("/"@[0] == '/') by {
                        reveal_strlit("/");
                    }
                }
            },
            FsNode::File { .. } => {},
        }
    }
}

proof fn lemma_bfs_lines_shape(queue: Seq<(Seq<char>, Seq<FsNode>)>)
    requires
        wf_queue(queue),
    ensures
        forall|i: int|
            0 <= i < spec_bfs_lines(queue).len() ==> spec_line_ok(
                #[trigger] spec_bfs_lines(queue)[i],
            ),
    decreases spec_queue_size(queue),
{
    if queue.len() > 0 {
        let prefix = queue[0].0;
        let entries = queue[0].1;
        let rest = queue.drop_first() + spec_level_dirs(prefix, entries);
        lemma_level_lines_shape(prefix, entries);
        assert(wf_queue(queue.drop_first()));
        lemma_level_dirs_wf(prefix, entries);
        assert(wf_queue(rest)) by {
            assert forall|i: int| 0 <= i < rest.len() implies spec_closed_prefix(
                #[trigger] rest[i].0,
            ) && wf_entries(rest[i].1) by {
                if i < queue.drop_first().len() {
                    assert(rest[i] == queue.drop_first()[i]);
                } else {
                    assert(rest[i] == spec_level_dirs(prefix, entries)[i - queue.drop_first().len()]);
                }
            }
        }
        lemma_queue_size_concat(queue.drop_first(), spec_level_dirs(prefix, entries));
        lemma_level_dirs_size(prefix, entries);
        lemma_queue_size_first(queue);
        lemma_bfs_lines_shape(rest);
        assert forall|i: int| 0 <= i < spec_bfs_lines(queue).len() implies spec_line_ok(
            #[trigger] spec_bfs_lines(queue)[i],
        ) by {
            let level = spec_level_lines(prefix, entries);
            if i < level.len() {
                assert(spec_bfs_lines(queue)[i] == level[i]);
            } else {
                assert(spec_bfs_lines(queue)[i] == spec_bfs_lines(rest)[i - level.len()]);
            }
        }
    }
}

/// The invariant every manifest keeps: built from a well-formed tree, it
/// lists only `file:`-prefixed relative paths of regular files, and the
/// final component of a listed path is never the manifest's own name nor
/// a bookkeeping file, wherever those sit in the tree.
pub proof fn lemma_manifest_lists_only_included_files(root_entries: Seq<FsNode>)
    requires
        wf_entries(root_entries),
    ensures
        forall|i: int|
            0 <= i < spec_manifest_lines(root_entries).len() ==> spec_line_ok(
                #[trigger] spec_manifest_lines(root_entries)[i],
            ),
{
    let queue = seq![(Seq::<char>::empty(), root_entries)];
    assert(wf_queue(queue)) by {
        assert(queue[0].0.len() == 0);
        assert(queue[0].1 == root_entries);
    }
    lemma_bfs_lines_shape(queue);
}

/// One manifest line: the `file:` mark, the directory prefix, the name.
pub open spec fn spec_file_line(prefix: Seq<char>, rel: Seq<char>) -> Seq<char> {
    "file:"@ + prefix + rel
}

/// The relative paths of the manifest-worthy files below one node: a
/// file's own name unless it is excluded, or a subdirectory's name ahead
/// of each path below it.
pub open spec fn spec_node_file_paths(node: FsNode) -> Set<Seq<char>>
    decreases node,
{
    match node {
        FsNode::File { name } => if spec_excluded_name(name@) {
            Set::empty()
        } else {
            Set::empty().insert(name@)
        },
        FsNode::Dir { name, entries } => spec_entries_file_paths(entries@).map(
            |p: Seq<char>| name@ + "/"@ + p,
        ),
    }
}

/// The relative paths of the manifest-worthy files below one listing.
pub open spec fn spec_entries_file_paths(entries: Seq<FsNode>) -> Set<Seq<char>>
    decreases entries,
{
    if entries.len() == 0 {
        Set::empty()
    } else {
        spec_entries_file_paths(entries.drop_last()).union(
            spec_node_file_paths(entries.last()),
        )
    }
}

proof fn lemma_contains_in_concat_left(a: Seq<Seq<char>>, b: Seq<Seq<char>>, x: Seq<char>)
    requires
        a.contains(x),
    ensures
        (a + b).contains(x),
{
    let i = choose|i: int| 0 <= i < a.len() && a[i] == x;
    assert((a + b)[i] == x);
}

proof fn lemma_contains_in_concat_right(a: Seq<Seq<char>>, b: Seq<Seq<char>>, x: Seq<char>)
    requires
        b.contains(x),
    ensures
        (a + b).contains(x),
{
    let i = choose|i: int| 0 <= i < b.len() && b[i] == x;
    assert((a + b)[a.len() + i] == x);
}

/// Every manifest-worthy path of a listing surfaces at its own level —
/// as the file line the level contributes — or inside one of the
/// subdirectory items the level enqueues.
proof fn lemma_level_complete(prefix: Seq<char>, entries: Seq<FsNode>, rel: Seq<char>)
    requires
        spec_entries_file_paths(entries).contains(rel),
    ensures
        spec_level_lines(prefix, entries).contains(spec_file_line(prefix, rel)) || exists|
            j: int,
            p: Seq<char>,
        |
            #![auto]
            0 <= j < spec_level_dirs(prefix, entries).len() && spec_entries_file_paths(
                spec_level_dirs(prefix, entries)[j].1,
            ).contains(p) && spec_file_line(spec_level_dirs(prefix, entries)[j].0, p)
                == spec_file_line(prefix, rel),
    decreases entries.len(),
{
    let lines = spec_level_lines(prefix, entries);
    let dirs = spec_level_dirs(prefix, entries);
    let rest_lines = spec_level_lines(prefix, entries.drop_last());
    let rest_dirs = spec_level_dirs(prefix, entries.drop_last());
    if spec_entries_file_paths(entries.drop_last()).contains(rel) {
        lemma_level_complete(prefix, entries.drop_last(), rel);
        if rest_lines.contains(spec_file_line(prefix, rel)) {
            let i = choose|i: int|
                0 <= i < rest_lines.len() && rest_lines[i] == spec_file_line(prefix, rel);
            assert(lines[i] == spec_file_line(prefix, rel));
            assert(lines.contains(spec_file_line(prefix, rel)));
        } else {
            let (j, p) = choose|j: int, p: Seq<char>|
                #![auto]
                0 <= j < rest_dirs.len() && spec_entries_file_paths(rest_dirs[j].1).contains(p)
                    && spec_file_line(rest_dirs[j].0, p) == spec_file_line(prefix, rel);
            assert(dirs[j] == rest_dirs[j]);
            assert(0 <= j < dirs.len() && spec_entries_file_paths(dirs[j].1).contains(p)
                && spec_file_line(dirs[j].0, p) == spec_file_line(prefix, rel));
        }
    } else {
        assert(entries.len() > 0);
        assert(spec_entries_file_paths(entries) == spec_entries_file_paths(
            entries.drop_last(),
        ).union(spec_node_file_paths(entries.last())));
        assert(spec_node_file_paths(entries.last()).contains(rel));
        match entries.last() {
            FsNode::File { name } => {
                assert(spec_node_file_paths(entries.last()) == (if spec_excluded_name(name@) {
                    Set::<Seq<char>>::empty()
                } else {
                    Set::<Seq<char>>::empty().insert(name@)
                }));
                assert(!spec_excluded_name(name@));
                assert(rel == name@);
                assert(lines == rest_lines.push("file:"@ + prefix + name@));
                assert(lines[lines.len() - 1] == spec_file_line(prefix, rel));
                assert(lines.contains(spec_file_line(prefix, rel)));
            },
            FsNode::Dir { name, entries: sub } => {
                let p = choose|p: Seq<char>|
                    spec_entries_file_paths(sub@).contains(p) && rel == (|q: Seq<char>|
                        name@ + "/"@ + q)(p);
                assert(rel == name@ + "/"@ + p);
                let j = dirs.len() - 1;
                assert(dirs == rest_dirs.push((prefix + name@ + "/"@, sub@)));
                assert(dirs[j] == (prefix + name@ + "/"@, sub@));
                assert(spec_file_line(prefix + name@ + "/"@, p) == spec_file_line(prefix, rel))
                    by {
                    assert("file:"@ + (prefix + name@ + "/"@) + p =~= "file:"@ + prefix + (name@
                        + "/"@ + p));
                }
                assert(0 <= j < dirs.len() && spec_entries_file_paths(dirs[j].1).contains(p)
                    && spec_file_line(dirs[j].0, p) == spec_file_line(prefix, rel));
            },
        }
    }
}

/// Every manifest-worthy path of any pending directory reaches the
/// manifest, as the file line under that directory's prefix.
proof fn lemma_bfs_complete(
    queue: Seq<(Seq<char>, Seq<FsNode>)>,
    k: int,
    rel: Seq<char>,
)
    requires
        0 <= k < queue.len(),
        spec_entries_file_paths(queue[k].1).contains(rel),
    ensures
        spec_bfs_lines(queue).contains(spec_file_line(queue[k].0, rel)),
    decreases spec_queue_size(queue),
{
    let prefix = queue[0].0;
    let entries = queue[0].1;
    let level = spec_level_lines(prefix, entries);
    let dirs = spec_level_dirs(prefix, entries);
    let rest = queue.drop_first() + dirs;
    lemma_queue_size_concat(queue.drop_first(), dirs);
    lemma_level_dirs_size(prefix, entries);
    lemma_queue_size_first(queue);
    if k > 0 {
        assert(rest[k - 1] == queue[k]);
        lemma_bfs_complete(rest, k - 1, rel);
        lemma_contains_in_concat_right(level, spec_bfs_lines(rest), spec_file_line(queue[k].0, rel));
    } else {
        lemma_level_complete(prefix, entries, rel);
        if level.contains(spec_file_line(prefix, rel)) {
            lemma_contains_in_concat_left(level, spec_bfs_lines(rest), spec_file_line(prefix, rel));
        } else {
            let (j, p) = choose|j: int, p: Seq<char>|
                #![auto]
                0 <= j < dirs.len() && spec_entries_file_paths(dirs[j].1).contains(p)
                    && spec_file_line(dirs[j].0, p) == spec_file_line(prefix, rel);
            assert(rest[queue.drop_first().len() + j] == dirs[j]);
            lemma_bfs_complete(rest, queue.drop_first().len() + j, p);
            lemma_contains_in_concat_right(level, spec_bfs_lines(rest), spec_file_line(dirs[j].0, p));
        }
    }
}

proof fn lemma_entries_file_paths_drop_last(entries: Seq<FsNode>, rel: Seq<char>)
    requires
        entries.len() > 0,
        spec_entries_file_paths(entries.drop_last()).contains(rel),
    ensures
        spec_entries_file_paths(entries).contains(rel),
{
}

/// Every line one level contributes names a manifest-worthy path of that
/// level's listing.
proof fn lemma_level_sound(prefix: Seq<char>, entries: Seq<FsNode>, i: int)
    requires
        0 <= i < spec_level_lines(prefix, entries).len(),
    ensures
        exists|rel: Seq<char>|
            #![auto]
            spec_entries_file_paths(entries).contains(rel) && spec_level_lines(prefix, entries)[i]
                == spec_file_line(prefix, rel),
    decreases entries.len(),
{
    let rest = spec_level_lines(prefix, entries.drop_last());
    if i < rest.len() {
        lemma_level_sound(prefix, entries.drop_last(), i);
        let rel = choose|rel: Seq<char>|
            #![auto]
            spec_entries_file_paths(entries.drop_last()).contains(rel) && rest[i]
                == spec_file_line(prefix, rel);
        lemma_entries_file_paths_drop_last(entries, rel);
        assert(spec_level_lines(prefix, entries)[i] == rest[i]);
        assert(spec_entries_file_paths(entries).contains(rel) && spec_level_lines(
            prefix,
            entries,
        )[i] == spec_file_line(prefix, rel));
    } else {
        match entries.last() {
            FsNode::File { name } => {
                assert(!spec_excluded_name(name@));
                assert(spec_level_lines(prefix, entries)[i] == "file:"@ + prefix + name@);
                assert(spec_node_file_paths(entries.last()).contains(name@));
                assert(spec_entries_file_paths(entries).contains(name@));
                assert(spec_entries_file_paths(entries).contains(name@) && spec_level_lines(
                    prefix,
                    entries,
                )[i] == spec_file_line(prefix, name@));
            },
            FsNode::Dir { .. } => {},
        }
    }
}

/// Every pending item one level enqueues carries paths that the level's
/// own listing already accounts for, one directory deeper.
proof fn lemma_level_dirs_sound(prefix: Seq<char>, entries: Seq<FsNode>, j: int, p: Seq<char>)
    requires
        0 <= j < spec_level_dirs(prefix, entries).len(),
        spec_entries_file_paths(spec_level_dirs(prefix, entries)[j].1).contains(p),
    ensures
        exists|rel: Seq<char>|
            #![auto]
            spec_entries_file_paths(entries).contains(rel) && spec_file_line(
                spec_level_dirs(prefix, entries)[j].0,
                p,
            ) == spec_file_line(prefix, rel),
    decreases entries.len(),
{
    let rest = spec_level_dirs(prefix, entries.drop_last());
    if j < rest.len() {
        assert(spec_level_dirs(prefix, entries)[j] == rest[j]);
        lemma_level_dirs_sound(prefix, entries.drop_last(), j, p);
        let rel = choose|rel: Seq<char>|
            #![auto]
            spec_entries_file_paths(entries.drop_last()).contains(rel) && spec_file_line(
                rest[j].0,
                p,
            ) == spec_file_line(prefix, rel);
        lemma_entries_file_paths_drop_last(entries, rel);
    } else {
        match entries.last() {
            FsNode::Dir { name, entries: sub } => {
                assert(spec_level_dirs(prefix, entries)[j] == (prefix + name@ + "/"@, sub@));
                let rel = name@ + "/"@ + p;
                assert(spec_node_file_paths(entries.last()).contains(rel)) by {
                    assert(spec_entries_file_paths(sub@).contains(p) && rel == (|q: Seq<char>|
                        name@ + "/"@ + q)(p));
                }
                assert(spec_entries_file_paths(entries).contains(rel));
                assert(spec_file_line(prefix + name@ + "/"@, p) == spec_file_line(prefix, rel))
                    by {
                    assert("file:"@ + (prefix + name@ + "/"@) + p =~= "file:"@ + prefix + (name@
                        + "/"@ + p));
                }
            },
            FsNode::File { .. } => {},
        }
    }
}

/// Every manifest line names a manifest-worthy path of one of the pending
/// directories, under that directory's prefix.
proof fn lemma_bfs_sound(queue: Seq<(Seq<char>, Seq<FsNode>)>, i: int)
    requires
        0 <= i < spec_bfs_lines(queue).len(),
    ensures
        exists|k: int, rel: Seq<char>|
            #![auto]
            0 <= k < queue.len() && spec_entries_file_paths(queue[k].1).contains(rel)
                && spec_bfs_lines(queue)[i] == spec_file_line(queue[k].0, rel),
    decreases spec_queue_size(queue),
{
    let prefix = queue[0].0;
    let entries = queue[0].1;
    let level = spec_level_lines(prefix, entries);
    let dirs = spec_level_dirs(prefix, entries);
    let rest = queue.drop_first() + dirs;
    lemma_queue_size_concat(queue.drop_first(), dirs);
    lemma_level_dirs_size(prefix, entries);
    lemma_queue_size_first(queue);
    if i < level.len() {
        lemma_level_sound(prefix, entries, i);
        let rel = choose|rel: Seq<char>|
            #![auto]
            spec_entries_file_paths(entries).contains(rel) && level[i] == spec_file_line(
                prefix,
                rel,
            );
        assert(spec_bfs_lines(queue)[i] == level[i]);
        assert(0 <= 0 < queue.len() && spec_entries_file_paths(queue[0].1).contains(rel)
            && spec_bfs_lines(queue)[i] == spec_file_line(queue[0].0, rel));
    } else {
        lemma_bfs_sound(rest, i - level.len());
        assert(spec_bfs_lines(queue)[i] == spec_bfs_lines(rest)[i - level.len()]);
        let (k, rel) = choose|k: int, rel: Seq<char>|
            #![auto]
            0 <= k < rest.len() && spec_entries_file_paths(rest[k].1).contains(rel)
                && spec_bfs_lines(rest)[i - level.len()] == spec_file_line(rest[k].0, rel);
        if k < queue.drop_first().len() {
            assert(rest[k] == queue[k + 1]);
            assert(0 <= k + 1 < queue.len() && spec_entries_file_paths(queue[k + 1].1).contains(
                rel,
            ) && spec_bfs_lines(queue)[i] == spec_file_line(queue[k + 1].0, rel));
        } else {
            let j = k - queue.drop_first().len();
            assert(rest[k] == dirs[j]);
            lemma_level_dirs_sound(prefix, entries, j, rel);
            let rel0 = choose|rel0: Seq<char>|
                #![auto]
                spec_entries_file_paths(entries).contains(rel0) && spec_file_line(dirs[j].0, rel)
                    == spec_file_line(prefix, rel0);
            assert(0 <= 0 < queue.len() && spec_entries_file_paths(queue[0].1).contains(rel0)
                && spec_bfs_lines(queue)[i] == spec_file_line(queue[0].0, rel0));
        }
    }
}

/// Soundness of the manifest: every line of it is the `file:` line of a
/// manifest-worthy file the tree really holds — no directory, no excluded
/// name, nothing else ever appears.
pub proof fn lemma_manifest_lists_nothing_else(root_entries: Seq<FsNode>, i: int)
    requires
        0 <= i < spec_manifest_lines(root_entries).len(),
    ensures
        exists|rel: Seq<char>|
            #![auto]
            spec_entries_file_paths(root_entries).contains(rel) && spec_manifest_lines(
                root_entries,
            )[i] == "file:"@ + rel,
{
    let queue = seq![(Seq::<char>::empty(), root_entries)];
    assert(queue[0].1 == root_entries);
    lemma_bfs_sound(queue, i);
    let (k, rel) = choose|k: int, rel: Seq<char>|
        #![auto]
        0 <= k < queue.len() && spec_entries_file_paths(queue[k].1).contains(rel)
            && spec_bfs_lines(queue)[i] == spec_file_line(queue[k].0, rel);
    assert(k == 0);
    assert(spec_file_line(Seq::<char>::empty(), rel) =~= "file:"@ + rel);
}

/// Completeness of the manifest: every manifest-worthy file below the
/// root — a regular file with a non-excluded name, at any depth — has its
/// `file:` line in the manifest.
pub proof fn lemma_manifest_lists_every_file(root_entries: Seq<FsNode>, rel: Seq<char>)
    requires
        spec_entries_file_paths(root_entries).contains(rel),
    ensures
        spec_manifest_lines(root_entries).contains("file:"@ + rel),
{
    let queue = seq![(Seq::<char>::empty(), root_entries)];
    assert(queue[0].1 == root_entries);
    lemma_bfs_complete(queue, 0, rel);
    assert(spec_file_line(Seq::<char>::empty(), rel) =~= "file:"@ + rel);
}

} // verus!
