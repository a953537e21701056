//! The rules behind the file commands: what a directory listing holds, and
//! the order in which it is shown.

use vstd::prelude::*;
use vstd::utf8::encode_utf8;

verus! {

/// One entry of a directory listing.
#[derive(Debug)]
pub struct FileNode {
    pub name: String,
    pub path: String,
    pub is_directory: bool,
    pub children: Option<Vec<FileNode>>,
}

/// A file to create, with its content.
#[derive(Debug)]
pub struct FileEntry {
    pub path: String,
    pub content: String,
}

/// A project as a set of files below a root directory.
#[derive(Debug)]
pub struct ProjectStructure {
    pub name: String,
    pub root_path: String,
    pub files: Vec<FileEntry>,
}

/// What a `FileEntry` holds.
pub struct FileEntryView {
    pub path: Seq<char>,
    pub content: Seq<char>,
}

impl View for FileEntry {
    type V = FileEntryView;

    open spec fn view(&self) -> FileEntryView {
        FileEntryView { path: self.path@, content: self.content@ }
    }
}

/// What a `ProjectStructure` holds.
pub struct ProjectStructureView {
    pub name: Seq<char>,
    pub root_path: Seq<char>,
    pub files: Seq<FileEntryView>,
}

impl View for ProjectStructure {
    type V = ProjectStructureView;

    open spec fn view(&self) -> ProjectStructureView {
        ProjectStructureView {
            name: self.name@,
            root_path: self.root_path@,
            files: self.files@.map_values(|file: FileEntry| file@),
        }
    }
}

/// Whether `a` comes before `b`, or is `b`, in the order of byte strings:
/// the first byte in which they differ decides, and a prefix comes first.
pub open spec fn bytes_ordered(a: Seq<u8>, b: Seq<u8>) -> bool
    decreases a.len(),
{
    if a.len() == 0 {
        true
    } else if b.len() == 0 {
        false
    } else if a[0] != b[0] {
        a[0] < b[0]
    } else {
        bytes_ordered(a.drop_first(), b.drop_first())
    }
}

/// Whether `a` may stand before `b` in a listing: directories stand before
/// files, and among entries of one kind the names decide, compared as the
/// bytes of their UTF-8 encoding.
pub open spec fn ordered(a: FileNode, b: FileNode) -> bool {
    if a.is_directory == b.is_directory {
        bytes_ordered(encode_utf8(a.name@), encode_utf8(b.name@))
    } else {
        a.is_directory
    }
}

/// A sorted listing with one more entry: it goes behind the last entry that
/// may stand before it.
pub open spec fn inserted(sorted: Seq<FileNode>, node: FileNode) -> Seq<FileNode>
    decreases sorted.len(),
{
    if sorted.len() == 0 || ordered(sorted.last(), node) {
        sorted.push(node)
    } else {
        inserted(sorted.drop_last(), node).push(sorted.last())
    }
}

/// A listing in the order in which it is shown. Entries that may stand
/// either way keep the order in which they came.
pub open spec fn listing_order(nodes: Seq<FileNode>) -> Seq<FileNode>
    decreases nodes.len(),
{
    if nodes.len() == 0 {
        Seq::empty()
    } else {
        inserted(listing_order(nodes.drop_last()), nodes.last())
    }
}

/// Whether each entry of a listing may stand before all that follow it.
pub open spec fn is_ordered(nodes: Seq<FileNode>) -> bool {
    forall|i: int, j: int| 0 <= i < j < nodes.len() ==> ordered(nodes[i], nodes[j])
}

/// Of two byte strings, one comes before the other or is the other.
pub proof fn lemma_bytes_order_total(a: Seq<u8>, b: Seq<u8>)
    ensures
        bytes_ordered(a, b) || bytes_ordered(b, a),
    decreases a.len(),
{
    if a.len() > 0 && b.len() > 0 && a[0] == b[0] {
        lemma_bytes_order_total(a.drop_first(), b.drop_first());
    }
}

/// The order of byte strings is transitive.
pub proof fn lemma_bytes_order_transitive(a: Seq<u8>, b: Seq<u8>, c: Seq<u8>)
    requires
        bytes_ordered(a, b),
        bytes_ordered(b, c),
    ensures
        bytes_ordered(a, c),
    decreases a.len(),
{
    if a.len() > 0 && b.len() > 0 && c.len() > 0 && a[0] == b[0] && b[0] == c[0] {
        lemma_bytes_order_transitive(a.drop_first(), b.drop_first(), c.drop_first());
    }
}

/// Of two entries, one may stand before the other.
pub proof fn lemma_order_total(a: FileNode, b: FileNode)
    ensures
        ordered(a, b) || ordered(b, a),
{
    lemma_bytes_order_total(encode_utf8(a.name@), encode_utf8(b.name@));
}

/// The order of entries is transitive.
pub proof fn lemma_order_transitive(a: FileNode, b: FileNode, c: FileNode)
    requires
        ordered(a, b),
        ordered(b, c),
    ensures
        ordered(a, c),
{
    if a.is_directory == b.is_directory && b.is_directory == c.is_directory {
        lemma_bytes_order_transitive(
            encode_utf8(a.name@),
            encode_utf8(b.name@),
            encode_utf8(c.name@),
        );
    }
}

/// Where a new entry goes: behind `at` entries, the last of which may stand
/// before it, and before the others, none of which may.
pub proof fn lemma_inserted_at(sorted: Seq<FileNode>, node: FileNode, at: int)
    requires
        0 <= at <= sorted.len(),
        at > 0 ==> ordered(sorted[at - 1], node),
        forall|k: int| at <= k < sorted.len() ==> !ordered(#[trigger] sorted[k], node),
    ensures
        inserted(sorted, node) == sorted.take(at).push(node) + sorted.skip(at),
    decreases sorted.len(),
{
    if at < sorted.len() {
        lemma_inserted_at(sorted.drop_last(), node, at);
    }
}

/// Inserting keeps a listing ordered, and keeps what it holds.
pub proof fn lemma_inserted_is_ordered(sorted: Seq<FileNode>, node: FileNode)
    requires
        is_ordered(sorted),
    ensures
        is_ordered(inserted(sorted, node)),
        inserted(sorted, node).to_multiset() == sorted.to_multiset().insert(node),
        inserted(sorted, node).len() == sorted.len() + 1,
    decreases sorted.len(),
{
    broadcast use vstd::seq_lib::group_to_multiset_ensures;

    if sorted.len() == 0 || ordered(sorted.last(), node) {
        let longer = sorted.push(node);
        assert forall|i: int, j: int| 0 <= i < j < longer.len() implies ordered(
            longer[i],
            longer[j],
        ) by {
            if j == sorted.len() && i < sorted.len() - 1 {
                lemma_order_transitive(sorted[i], sorted.last(), node);
            }
        }
    } else {
        let shorter = sorted.drop_last();
        let last = sorted.last();
        lemma_inserted_is_ordered(shorter, node);
        lemma_order_total(last, node);
        let inner = inserted(shorter, node);
        let longer = inner.push(last);
        assert(sorted =~= shorter.push(last));
        assert forall|i: int| 0 <= i < inner.len() implies ordered(#[trigger] inner[i], last) by {
            assert(inner.to_multiset().count(inner[i]) > 0);
            if inner[i] != node {
                assert(shorter.contains(inner[i]));
            }
        }
        assert(is_ordered(longer));
    }
}

/// The order in which a listing is shown is an order indeed, and the
/// listing holds in it what it held before.
pub proof fn lemma_listing_order_sorts(nodes: Seq<FileNode>)
    ensures
        is_ordered(listing_order(nodes)),
        listing_order(nodes).to_multiset() == nodes.to_multiset(),
        listing_order(nodes).len() == nodes.len(),
    decreases nodes.len(),
{
    broadcast use vstd::seq_lib::group_to_multiset_ensures;

    if nodes.len() > 0 {
        lemma_listing_order_sorts(nodes.drop_last());
        lemma_inserted_is_ordered(listing_order(nodes.drop_last()), nodes.last());
        assert(nodes =~= nodes.drop_last().push(nodes.last()));
    }
}

/// Compares two byte strings.
pub fn bytes_in_order(a: &[u8], b: &[u8]) -> (in_order: bool)
    ensures
        in_order == bytes_ordered(a@, b@),
{
    let mut i: usize = 0;
    assert(a@.skip(0) =~= a@);
    assert(b@.skip(0) =~= b@);
    while i < a.len() && i < b.len()
        invariant
            i <= a@.len(),
            i <= b@.len(),
            bytes_ordered(a@, b@) == bytes_ordered(a@.skip(i as int), b@.skip(i as int)),
        decreases a@.len() - i,
    {
        proof {
            assert(a@.skip(i as int).drop_first() =~= a@.skip(i + 1));
            assert(b@.skip(i as int).drop_first() =~= b@.skip(i + 1));
        }
        if a[i] != b[i] {
            return a[i] < b[i];
        }
        i += 1;
    }
    i == a.len()
}

/// Whether `a` may stand before `b` in a listing.
pub fn may_precede(a: &FileNode, b: &FileNode) -> (in_order: bool)
    ensures
        in_order == ordered(*a, *b),
{
    if a.is_directory == b.is_directory {
        bytes_in_order(a.name.as_str().as_bytes(), b.name.as_str().as_bytes())
    } else {
        a.is_directory
    }
}

/// Puts a listing in the order in which it is shown: directories first,
/// then files, each kind by name.
pub fn sort_nodes(nodes: Vec<FileNode>) -> (sorted: Vec<FileNode>)
    ensures
        sorted@ == listing_order(nodes@),
{
    let mut nodes = nodes;
    let ghost given = nodes@;
    let mut done: usize = 0;
    while done < nodes.len()
        invariant
            done <= nodes@.len(),
            nodes@.len() == given.len(),
            nodes@.take(done as int) == listing_order(given.take(done as int)),
            nodes@.skip(done as int) == given.skip(done as int),
        decreases nodes@.len() - done,
    {
        let ghost before = nodes@;
        let ghost head = before.take(done as int);
        let node = nodes.remove(done);
        assert(node == given[done as int]) by {
            assert(before.skip(done as int)[0] == given.skip(done as int)[0]);
        }
        let mut at: usize = done;
        while at > 0 && !may_precede(&nodes[at - 1], &node)
            invariant
                at <= done < before.len(),
                nodes@ == before.remove(done as int),
                head == before.take(done as int),
                forall|k: int| at <= k < done ==> !ordered(#[trigger] head[k], node),
            decreases at,
        {
            at -= 1;
        }
        proof {
            lemma_inserted_at(head, node, at as int);
        }
        nodes.insert(at, node);
        proof {
            assert(given.take(done + 1).drop_last() =~= given.take(done as int));
            assert(nodes@.skip(done + 1) =~= given.skip(done + 1)) by {
                let tail = nodes@.skip(done + 1);
                assert forall|k: int| 0 <= k < given.len() - done - 1 implies #[trigger] tail[k]
                    == given.skip(done + 1)[k] by {
                    assert(before.skip(done as int)[k + 1] == given.skip(done as int)[k + 1]);
                }
            }
        }
        done += 1;
    }
    assert(given.take(done as int) =~= given);
    nodes
}

impl FileNode {
    /// An entry of a listing. Its own entries are not listed.
    pub fn new(name: String, path: String, is_directory: bool) -> (node: FileNode)
        ensures
            node.name == name,
            node.path == path,
            node.is_directory == is_directory,
            node.children is None,
    {
        FileNode { name, path, is_directory, children: None }
    }
}

} // verus!
