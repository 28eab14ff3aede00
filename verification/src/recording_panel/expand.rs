//! Opening the folders that a selected item is in.
use vstd::prelude::*;
use vstd::string::*;

use crate::effects::{EntryId, Item, Origin, RedapEntryKind, Scheme};
use crate::recording_panel::data::{
    EntryTreeNode, ServerData, ServerEntriesData, ServerLeafEntry,
};
use crate::text;

verus! {

/// Something in the panel that can be expanded.
#[derive(Debug)]
pub enum Expandable {
    Server(Origin),
    /// A folder, by its path.
    Folder(String),
}

// ---------------------------------------------------------------------------------------
// Folder paths

/// The non-empty parts of a path that end before one of its first `n` characters that is a
/// dot, shallowest first.
pub open spec fn dotted_prefixes(path: Seq<char>, n: int) -> Seq<Seq<char>>
    decreases n,
{
    if n <= 0 {
        Seq::empty()
    } else {
        let before = dotted_prefixes(path, n - 1);
        if path[n - 1] == '.' && n > 1 {
            before.push(path.take(n - 1))
        } else {
            before
        }
    }
}

/// The folders that a dotted path leads through, shallowest first, itself included.
pub open spec fn folder_chain(path: Seq<char>) -> Seq<Seq<char>> {
    if path.len() == 0 {
        Seq::empty()
    } else {
        dotted_prefixes(path, path.len() as int).push(path)
    }
}

/// Every ancestor folder path of a dotted hierarchy `path`, shallowest first, including
/// `path` itself. `"a.b.c"` → `"a"`, `"a.b"`, `"a.b.c"`.
pub fn ancestor_folder_paths<'a>(path: &'a str) -> (r: Vec<&'a str>)
    ensures
        text::str_views(r@) == folder_chain(path@),
{
    let v: Vec<char> = text::chars_of(path);
    let n: usize = v.len();
    let mut out: Vec<&'a str> = Vec::new();
    assert(text::str_views(out@) =~= dotted_prefixes(path@, 0));
    let mut i: usize = 0;
    while i < n
        invariant
            i <= n,
            n == v@.len(),
            v@ == path@,
            text::str_views(out@) == dotted_prefixes(path@, i as int),
        decreases n - i,
    {
        if v[i] == '.' && i > 0 {
            let ghost before = out@;
            let prefix: &'a str = path.substring_char(0, i);
            out.push(prefix);
            assert(prefix@ =~= path@.take(i as int));
            assert(text::str_views(out@) =~= text::str_views(before).push(path@.take(i as int)));
        }
        i += 1;
    }
    if n > 0 {
        let ghost before = out@;
        out.push(path);
        assert(text::str_views(out@) =~= text::str_views(before).push(path@));
    }
    out
}

/// The chain of folders ends with the path itself; each of them is a part of the path from
/// its start that ends before a dot; and they get longer from one to the next.
pub proof fn law_folder_chain(path: Seq<char>, i: int, j: int)
    requires
        0 <= i < j < folder_chain(path).len(),
    ensures
        folder_chain(path).last() == path,
        0 < folder_chain(path)[i].len() < folder_chain(path)[j].len(),
        folder_chain(path)[i] == path.take(folder_chain(path)[i].len() as int),
        path[folder_chain(path)[i].len() as int] == '.',
{
    lemma_dotted_prefixes(path, path.len() as int, i);
    if j < folder_chain(path).len() - 1 {
        lemma_dotted_prefixes(path, path.len() as int, j);
        lemma_prefixes_grow(path, path.len() as int, i, j);
    }
}

proof fn lemma_dotted_prefixes(path: Seq<char>, n: int, i: int)
    requires
        0 <= n <= path.len(),
        0 <= i < dotted_prefixes(path, n).len(),
    ensures
        0 < dotted_prefixes(path, n)[i].len() < n,
        dotted_prefixes(path, n)[i] == path.take(dotted_prefixes(path, n)[i].len() as int),
        path[dotted_prefixes(path, n)[i].len() as int] == '.',
    decreases n,
{
    if n > 0 && i < dotted_prefixes(path, n - 1).len() {
        lemma_dotted_prefixes(path, n - 1, i);
    }
}

proof fn lemma_prefixes_grow(path: Seq<char>, n: int, i: int, j: int)
    requires
        0 <= n <= path.len(),
        0 <= i < j < dotted_prefixes(path, n).len(),
    ensures
        dotted_prefixes(path, n)[i].len() < dotted_prefixes(path, n)[j].len(),
    decreases n,
{
    if n > 0 {
        let before = dotted_prefixes(path, n - 1);
        if j < before.len() {
            lemma_prefixes_grow(path, n - 1, i, j);
        } else {
            lemma_dotted_prefixes(path, n - 1, i);
        }
    }
}

/// Every folder that a path is in has its place in the chain: what stands before a dot, if
/// it is not empty, is one of them.
pub proof fn law_folder_chain_is_complete(path: Seq<char>, at: int)
    requires
        0 < at < path.len(),
        path[at] == '.',
    ensures
        folder_chain(path).contains(path.take(at)),
{
    lemma_prefix_is_listed(path, path.len() as int, at);
    let before = dotted_prefixes(path, path.len() as int);
    let k = choose|k: int| 0 <= k < before.len() && before[k] == path.take(at);
    assert(folder_chain(path)[k] == path.take(at));
}

proof fn lemma_prefix_is_listed(path: Seq<char>, n: int, at: int)
    requires
        0 < at < n <= path.len(),
        path[at] == '.',
    ensures
        dotted_prefixes(path, n).contains(path.take(at)),
    decreases n,
{
    let all = dotted_prefixes(path, n);
    if at == n - 1 {
        assert(all[all.len() - 1] == path.take(at));
    } else {
        lemma_prefix_is_listed(path, n - 1, at);
        let before = dotted_prefixes(path, n - 1);
        let k = choose|k: int| 0 <= k < before.len() && before[k] == path.take(at);
        assert(all[k] == path.take(at));
    }
}

// ---------------------------------------------------------------------------------------
// Folders of an entry

/// The folders that the first occurrence of an entry among `nodes` is in, innermost first.
/// `None` if it is not there.
pub open spec fn folders_around(nodes: Seq<EntryTreeNode>, id: EntryId) -> Option<Seq<Seq<char>>>
    decreases nodes,
{
    if nodes.len() == 0 {
        None
    } else {
        match folders_in_node(nodes[0], id) {
            Some(folders) => Some(folders),
            None => folders_around(nodes.subrange(1, nodes.len() as int), id),
        }
    }
}

/// The same for a single node.
pub open spec fn folders_in_node(node: EntryTreeNode, id: EntryId) -> Option<Seq<Seq<char>>>
    decreases node,
{
    match node {
        EntryTreeNode::Entry(entry) => if entry.spec_entry().entry_id == id {
            Some(Seq::empty())
        } else {
            None
        },
        EntryTreeNode::Folder { name, path_prefix, children } => match folders_around(
            children@,
            id,
        ) {
            Some(folders) => Some(folders.push(path_prefix@)),
            None => None,
        },
    }
}

/// What is to be expanded: a server, or a folder by its path.
pub enum ExpandKey {
    Server(Scheme, Seq<char>, u16),
    Folder(Seq<char>),
}

pub open spec fn server_key(origin: Origin) -> ExpandKey {
    ExpandKey::Server(origin.scheme, origin.host@, origin.port)
}

pub open spec fn key_of(e: Expandable) -> ExpandKey {
    match e {
        Expandable::Server(origin) => server_key(origin),
        Expandable::Folder(path) => ExpandKey::Folder(path@),
    }
}

pub open spec fn keys_of(list: Seq<Expandable>) -> Seq<ExpandKey> {
    Seq::new(list.len(), |i: int| key_of(list[i]))
}

pub open spec fn folder_keys(paths: Seq<Seq<char>>) -> Seq<ExpandKey> {
    Seq::new(paths.len(), |i: int| ExpandKey::Folder(paths[i]))
}

/// Expand all folders that an entry is in. Returns whether it was found.
pub fn expand_folder_nodes_containing_entry(
    nodes: &Vec<EntryTreeNode>,
    entry_id: EntryId,
    open: &mut Vec<Expandable>,
) -> (r: bool)
    ensures
        r == folders_around(nodes@, entry_id) is Some,
        keys_of(final(open)@) == keys_of(old(open)@) + folder_keys(
            match folders_around(nodes@, entry_id) {
                Some(folders) => folders,
                None => Seq::empty(),
            },
        ),
    decreases nodes,
{
    let n: usize = nodes.len();
    let mut i: usize = 0;
    assert(nodes@.subrange(0, n as int) =~= nodes@);
    while i < n
        invariant
            i <= n,
            n == nodes@.len(),
            keys_of(open@) == keys_of(old(open)@),
            folders_around(nodes@, entry_id) == folders_around(
                nodes@.subrange(i as int, n as int),
                entry_id,
            ),
        decreases n - i,
    {
        let node: &EntryTreeNode = &nodes[i];
        let ghost rest = nodes@.subrange(i as int, n as int);
        proof {
            reveal_with_fuel(folders_around, 2);
            reveal_with_fuel(folders_in_node, 2);
        }
        assert(rest[0] == *node);
        assert(rest.subrange(1, rest.len() as int) =~= nodes@.subrange(i + 1, n as int));
        match node {
            EntryTreeNode::Entry(entry) => {
                if entry.entry_id() == entry_id {
                    assert(folder_keys(Seq::empty()) =~= Seq::empty());
                    return true;
                }
            },
            EntryTreeNode::Folder { path_prefix, children, .. } => {
                assert(decreases_to!(nodes => nodes@[i as int]));
                assert(decreases_to!(nodes@[i as int] => children));
                if expand_folder_nodes_containing_entry(children, entry_id, open) {
                    let ghost before = open@;
                    open.push(Expandable::Folder(path_prefix.clone()));
                    proof {
                        let inner = folders_around(children@, entry_id)->0;
                        assert(keys_of(open@) =~= keys_of(before).push(
                            ExpandKey::Folder(path_prefix@),
                        ));
                        assert(folder_keys(inner.push(path_prefix@)) =~= folder_keys(inner).push(
                            ExpandKey::Folder(path_prefix@),
                        ));
                        assert(keys_of(open@) =~= keys_of(old(open)@) + folder_keys(
                            inner.push(path_prefix@),
                        ));
                    }
                    return true;
                }
                assert(keys_of(open@) =~= keys_of(old(open)@));
            },
        }
        i += 1;
    }
    assert(keys_of(open@) =~= keys_of(old(open)@) + folder_keys(Seq::empty()));
    false
}

/// Whether an entry is among `nodes`.
pub open spec fn holds_entry(nodes: Seq<EntryTreeNode>, id: EntryId) -> bool
    decreases nodes,
{
    nodes.len() > 0 && (node_holds(nodes[0], id) || holds_entry(
        nodes.subrange(1, nodes.len() as int),
        id,
    ))
}

/// Whether an entry is in a node.
pub open spec fn node_holds(node: EntryTreeNode, id: EntryId) -> bool
    decreases node,
{
    match node {
        EntryTreeNode::Entry(entry) => entry.spec_entry().entry_id == id,
        EntryTreeNode::Folder { children, .. } => holds_entry(children@, id),
    }
}

/// An entry is found if and only if it is somewhere among the nodes.
pub proof fn law_entry_is_found(nodes: Seq<EntryTreeNode>, id: EntryId)
    ensures
        folders_around(nodes, id) is Some <==> holds_entry(nodes, id),
    decreases nodes,
{
    reveal_with_fuel(folders_around, 2);
    reveal_with_fuel(holds_entry, 2);
    reveal_with_fuel(folders_in_node, 2);
    reveal_with_fuel(node_holds, 2);
    if nodes.len() > 0 {
        law_entry_is_found(nodes.subrange(1, nodes.len() as int), id);
        match nodes[0] {
            EntryTreeNode::Folder { children, .. } => {
                law_entry_is_found(children@, id);
            },
            _ => {},
        }
    }
}

/// Whether somewhere among `nodes` there is a folder of this path that the entry is in.
pub open spec fn has_folder_around(
    nodes: Seq<EntryTreeNode>,
    path: Seq<char>,
    id: EntryId,
) -> bool
    decreases nodes,
{
    nodes.len() > 0 && (is_folder_around(nodes[0], path, id) || has_folder_around(
        nodes.subrange(1, nodes.len() as int),
        path,
        id,
    ))
}

/// Whether a node is a folder of this path that the entry is in, or has one inside.
pub open spec fn is_folder_around(node: EntryTreeNode, path: Seq<char>, id: EntryId) -> bool
    decreases node,
{
    match node {
        EntryTreeNode::Entry(_) => false,
        EntryTreeNode::Folder { path_prefix, children, .. } => (path_prefix@ == path && holds_entry(
            children@,
            id,
        )) || has_folder_around(children@, path, id),
    }
}

/// No folder is expanded but for an entry inside it.
pub proof fn law_only_folders_around_are_expanded(nodes: Seq<EntryTreeNode>, id: EntryId, i: int)
    requires
        folders_around(nodes, id) matches Some(folders) && 0 <= i < folders.len(),
    ensures
        has_folder_around(nodes, folders_around(nodes, id)->0[i], id),
    decreases nodes,
{
    reveal_with_fuel(folders_around, 2);
    reveal_with_fuel(folders_in_node, 2);
    reveal_with_fuel(has_folder_around, 2);
    reveal_with_fuel(is_folder_around, 2);
    if folders_in_node(nodes[0], id) is Some {
        match nodes[0] {
            EntryTreeNode::Folder { children, .. } => {
                law_entry_is_found(children@, id);
                if i < folders_around(children@, id)->0.len() {
                    law_only_folders_around_are_expanded(children@, id, i);
                }
            },
            _ => {},
        }
    } else {
        law_only_folders_around_are_expanded(nodes.subrange(1, nodes.len() as int), id, i);
    }
}

/// The entry that an address leads to. An address is the number of a node, then that of one of
/// the nodes in it, and so on.
pub open spec fn leaf_at(nodes: Seq<EntryTreeNode>, address: Seq<int>) -> Option<ServerLeafEntry>
    decreases address.len(),
{
    if address.len() == 0 || !(0 <= address[0] < nodes.len()) {
        None
    } else {
        match nodes[address[0]] {
            EntryTreeNode::Entry(leaf) => if address.len() == 1 {
                Some(leaf)
            } else {
                None
            },
            EntryTreeNode::Folder { children, .. } => leaf_at(children@, address.skip(1)),
        }
    }
}

/// The path of the folder that an address leads through with the number at `depth`.
pub open spec fn folder_on_the_way(nodes: Seq<EntryTreeNode>, address: Seq<int>, depth: nat) -> Seq<
    char,
>
    decreases depth,
{
    match nodes[address[0]] {
        EntryTreeNode::Entry(_) => Seq::empty(),
        EntryTreeNode::Folder { path_prefix, children, .. } => if depth == 0 {
            path_prefix@
        } else {
            folder_on_the_way(children@, address.skip(1), (depth - 1) as nat)
        },
    }
}

/// Whether an address leads to an entry with this id.
pub open spec fn leads_to(nodes: Seq<EntryTreeNode>, address: Seq<int>, id: EntryId) -> bool {
    leaf_at(nodes, address) matches Some(leaf) && leaf.spec_entry().entry_id == id
}

/// Whether what one address leads to is listed above what the other does.
pub open spec fn comes_before(a: Seq<int>, b: Seq<int>) -> bool
    decreases a.len(),
{
    a.len() > 0 && b.len() > 0 && (a[0] < b[0] || (a[0] == b[0] && comes_before(
        a.skip(1),
        b.skip(1),
    )))
}

/// Whether an address leads to the topmost of the entries with this id.
pub open spec fn leads_to_first(nodes: Seq<EntryTreeNode>, address: Seq<int>, id: EntryId) -> bool {
    leads_to(nodes, address, id) && forall|other: Seq<int>| #[trigger]
        leads_to(nodes, other, id) ==> !comes_before(other, address)
}

proof fn lemma_address_inside(nodes: Seq<EntryTreeNode>, at: int, inner: Seq<int>, id: EntryId)
    requires
        0 <= at < nodes.len(),
        nodes[at] is Folder,
    ensures
        leads_to(nodes, seq![at] + inner, id) == leads_to(nodes[at]->children@, inner, id),
        (seq![at] + inner).skip(1) == inner,
{
    assert((seq![at] + inner).skip(1) =~= inner);
}

proof fn lemma_address_below(nodes: Seq<EntryTreeNode>, address: Seq<int>, id: EntryId)
    requires
        nodes.len() > 0,
        address.len() > 0,
        address[0] >= 0,
    ensures
        leads_to(nodes, seq![address[0] + 1] + address.skip(1), id) == leads_to(
            nodes.subrange(1, nodes.len() as int),
            address,
            id,
        ),
        (seq![address[0] + 1] + address.skip(1)).skip(1) == address.skip(1),
{
    let below = seq![address[0] + 1] + address.skip(1);
    assert(below.skip(1) =~= address.skip(1));
    assert(below.len() == address.len());
}

proof fn lemma_found_has_address(nodes: Seq<EntryTreeNode>, id: EntryId) -> (address: Seq<int>)
    requires
        folders_around(nodes, id) is Some,
    ensures
        leads_to(nodes, address, id),
    decreases nodes,
{
    reveal_with_fuel(folders_around, 2);
    reveal_with_fuel(folders_in_node, 2);
    if folders_in_node(nodes[0], id) is Some {
        match nodes[0] {
            EntryTreeNode::Folder { children, .. } => {
                let inner = lemma_found_has_address(children@, id);
                lemma_address_inside(nodes, 0, inner, id);
                seq![0int] + inner
            },
            EntryTreeNode::Entry(_) => seq![0int],
        }
    } else {
        let below = lemma_found_has_address(nodes.subrange(1, nodes.len() as int), id);
        lemma_address_below(nodes, below, id);
        seq![below[0] + 1] + below.skip(1)
    }
}

/// Every folder on the way to the topmost occurrence of an entry is expanded, the innermost
/// first, and no other: there are as many of them as the entry is deep.
pub proof fn law_all_folders_around_are_expanded(
    nodes: Seq<EntryTreeNode>,
    id: EntryId,
    address: Seq<int>,
)
    requires
        leads_to_first(nodes, address, id),
    ensures
        folders_around(nodes, id) matches Some(folders) && folders.len() == address.len() - 1
            && forall|k: int|
            0 <= k < folders.len() ==> #[trigger] folders[k] == folder_on_the_way(
                nodes,
                address,
                (address.len() - 2 - k) as nat,
            ),
    decreases nodes,
{
    reveal_with_fuel(folders_around, 2);
    reveal_with_fuel(folders_in_node, 2);
    let at = address[0];
    let rest = nodes.subrange(1, nodes.len() as int);
    if at > 0 {
        if folders_in_node(nodes[0], id) is Some {
            match nodes[0] {
                EntryTreeNode::Folder { children, .. } => {
                    let inner = lemma_found_has_address(children@, id);
                    lemma_address_inside(nodes, 0, inner, id);
                    assert(comes_before(seq![0int] + inner, address));
                },
                EntryTreeNode::Entry(_) => {
                    assert(leads_to(nodes, seq![0int], id));
                    assert(comes_before(seq![0int], address));
                },
            }
            assert(false);
        }
        let higher = seq![at - 1] + address.skip(1);
        assert(higher.skip(1) =~= address.skip(1));
        lemma_address_below(nodes, higher, id);
        assert(seq![higher[0] + 1] + higher.skip(1) =~= address);
        assert forall|other: Seq<int>| #[trigger]
            leads_to(rest, other, id) implies !comes_before(other, higher) by {
            lemma_address_below(nodes, other, id);
        }
        law_all_folders_around_are_expanded(rest, id, higher);
        assert forall|depth: nat| #[trigger]
            folder_on_the_way(nodes, address, depth) == folder_on_the_way(rest, higher, depth) by {}
        let folders = folders_around(nodes, id)->0;
        assert forall|k: int| 0 <= k < folders.len() implies #[trigger] folders[k]
            == folder_on_the_way(nodes, address, (address.len() - 2 - k) as nat) by {
            assert(folders_around(rest, id)->0[k] == folder_on_the_way(
                rest,
                higher,
                (higher.len() - 2 - k) as nat,
            ));
        }
    } else {
        match nodes[0] {
            EntryTreeNode::Entry(_) => {},
            EntryTreeNode::Folder { path_prefix, children, .. } => {
                let inner = address.skip(1);
                assert forall|other: Seq<int>| #[trigger]
                    leads_to(children@, other, id) implies !comes_before(other, inner) by {
                    lemma_address_inside(nodes, 0, other, id);
                    assert(leads_to(nodes, seq![0int] + other, id));
                }
                law_all_folders_around_are_expanded(children@, id, inner);
                let within = folders_around(children@, id)->0;
                let folders = folders_around(nodes, id)->0;
                assert(folders == within.push(path_prefix@));
                assert forall|k: int| 0 <= k < folders.len() implies #[trigger] folders[k]
                    == folder_on_the_way(nodes, address, (address.len() - 2 - k) as nat) by {
                    if k < within.len() {
                        assert(within[k] == folder_on_the_way(
                            children@,
                            inner,
                            (inner.len() - 2 - k) as nat,
                        ));
                        assert(address.len() - 2 - k > 0);
                    }
                }
            },
        }
    }
}

// ---------------------------------------------------------------------------------------
// Items

/// The entries of the first of the servers that is at `origin`.
pub open spec fn entries_at(servers: Seq<ServerData>, origin: Origin) -> Option<ServerEntriesData>
    decreases servers.len(),
{
    if servers.len() == 0 {
        None
    } else if servers[0].origin@ == origin@ {
        Some(servers[0].entries)
    } else {
        entries_at(servers.drop_first(), origin)
    }
}

/// What has to be expanded for an entry of a server: the folders that it is in, once they
/// are known.
pub open spec fn entry_expansion(servers: Seq<ServerData>, origin: Origin, id: EntryId) -> Seq<
    Seq<char>,
> {
    match entries_at(servers, origin) {
        Some(ServerEntriesData::Loaded { entry_tree }) => match folders_around(entry_tree@, id) {
            Some(folders) => folders,
            None => Seq::empty(),
        },
        _ => Seq::empty(),
    }
}

/// Whether the folders of an entry can be told: not while its server has not listed them.
pub open spec fn entry_is_settled(servers: Seq<ServerData>, origin: Origin) -> bool {
    match entries_at(servers, origin) {
        Some(ServerEntriesData::Loaded { .. }) => true,
        Some(_) => false,
        None => true,
    }
}

/// Expand the folders that an entry of a server is in. Returns `false` if that server has not
/// listed its entries yet.
pub fn expand_parent_folders_for_entry(
    servers: &Vec<ServerData>,
    origin: &Origin,
    entry_id: EntryId,
    open: &mut Vec<Expandable>,
) -> (r: bool)
    ensures
        r == entry_is_settled(servers@, *origin),
        keys_of(final(open)@) == keys_of(old(open)@) + folder_keys(
            entry_expansion(servers@, *origin, entry_id),
        ),
{
    let n: usize = servers.len();
    let mut i: usize = 0;
    assert(servers@.skip(0) =~= servers@);
    assert(folder_keys(Seq::empty()) =~= Seq::empty());
    while i < n
        invariant
            i <= n,
            n == servers@.len(),
            keys_of(open@) == keys_of(old(open)@),
            folder_keys(Seq::empty()) == Seq::<ExpandKey>::empty(),
            entries_at(servers@, *origin) == entries_at(servers@.skip(i as int), *origin),
        decreases n - i,
    {
        assert(servers@.skip(i as int).drop_first() =~= servers@.skip(i + 1));
        if servers[i].origin.is_same(origin) {
            return match &servers[i].entries {
                ServerEntriesData::Loaded { entry_tree } => {
                    let found: bool = expand_folder_nodes_containing_entry(
                        entry_tree,
                        entry_id,
                        open,
                    );
                    true
                },
                _ => {
                    assert(keys_of(open@) =~= keys_of(old(open)@) + Seq::empty());
                    false
                },
            };
        }
        i += 1;
    }
    assert(keys_of(open@) =~= keys_of(old(open)@) + Seq::empty());
    true
}

/// What has to be expanded for an item to be in sight.
pub open spec fn expansion(servers: Seq<ServerData>, item: Item) -> Seq<ExpandKey> {
    match item {
        Item::RedapServer(origin) => seq![server_key(origin)],
        Item::RedapEntry(origin, RedapEntryKind::Folder(path)) => seq![server_key(origin)]
            + folder_keys(folder_chain(path@)),
        Item::RedapEntry(origin, RedapEntryKind::Entry(id)) => seq![server_key(origin)]
            + folder_keys(entry_expansion(servers, origin, id)),
        _ => Seq::empty(),
    }
}

/// Whether all that has to be expanded for an item is known.
pub open spec fn is_settled(servers: Seq<ServerData>, item: Item) -> bool {
    match item {
        Item::RedapEntry(origin, RedapEntryKind::Entry(_)) => entry_is_settled(servers, origin),
        _ => true,
    }
}

fn expand_folder_path(path: &String, open: &mut Vec<Expandable>)
    ensures
        keys_of(final(open)@) == keys_of(old(open)@) + folder_keys(folder_chain(path@)),
{
    let chain: Vec<&str> = ancestor_folder_paths(path.as_str());
    let ghost paths = folder_chain(path@);
    let n: usize = chain.len();
    let mut i: usize = 0;
    while i < n
        invariant
            i <= n,
            n == chain@.len(),
            text::str_views(chain@) == paths,
            keys_of(open@) == keys_of(old(open)@) + folder_keys(paths.take(i as int)),
        decreases n - i,
    {
        let ghost before = open@;
        open.push(Expandable::Folder(chain[i].to_owned()));
        assert(paths[i as int] == chain@[i as int]@);
        assert(keys_of(open@) =~= keys_of(before).push(ExpandKey::Folder(paths[i as int])));
        assert(folder_keys(paths.take(i + 1)) =~= folder_keys(paths.take(i as int)).push(
            ExpandKey::Folder(paths[i as int]),
        ));
        i += 1;
        assert(keys_of(open@) =~= keys_of(old(open)@) + folder_keys(paths.take(i as int)));
    }
    assert(paths.take(n as int) =~= paths);
}

/// Force the server item and all ancestor folder nodes for `item` to be expanded.
///
/// Returns `true` once expansion completed (or the item doesn't need any), `false` if a
/// dependent lookup failed because the dataset list isn't loaded yet, in which case the
/// caller should retry next frame.
pub fn expand_parents_for_item(
    servers: &Vec<ServerData>,
    item: &Item,
    open: &mut Vec<Expandable>,
) -> (r: bool)
    ensures
        r == is_settled(servers@, *item),
        keys_of(final(open)@) == keys_of(old(open)@) + expansion(servers@, *item),
{
    match item {
        Item::RedapServer(origin) => {
            open.push(Expandable::Server(origin.clone()));
            assert(keys_of(open@) =~= keys_of(old(open)@) + seq![server_key(*origin)]);
            true
        },
        Item::RedapEntry(origin, kind) => {
            open.push(Expandable::Server(origin.clone()));
            assert(keys_of(open@) =~= keys_of(old(open)@) + seq![server_key(*origin)]);
            match kind {
                RedapEntryKind::Folder(path) => {
                    expand_folder_path(path, open);
                    assert(keys_of(open@) =~= keys_of(old(open)@) + expansion(servers@, *item));
                    true
                },
                RedapEntryKind::Entry(id) => {
                    let settled: bool = expand_parent_folders_for_entry(servers, origin, *id, open);
                    assert(keys_of(open@) =~= keys_of(old(open)@) + expansion(servers@, *item));
                    settled
                },
            }
        },
        _ => {
            assert(keys_of(open@) =~= keys_of(old(open)@) + expansion(servers@, *item));
            true
        },
    }
}

/// What is expanded is told apart by what it is: servers by scheme, host and port, folders by
/// their paths.
pub proof fn law_expandables_are_told_apart(a: Expandable, b: Expandable)
    requires
        key_of(a) == key_of(b),
    ensures
        match (a, b) {
            (Expandable::Server(x), Expandable::Server(y)) => x.scheme == y.scheme && x.host@
                == y.host@ && x.port == y.port,
            (Expandable::Folder(x), Expandable::Folder(y)) => x@ == y@,
            _ => false,
        },
{
}

/// Whether this is the first of the servers at an origin.
pub open spec fn is_server_at(servers: Seq<ServerData>, origin: Origin, at: int) -> bool {
    &&& 0 <= at < servers.len()
    &&& servers[at].origin@ == origin@
    &&& forall|i: int| 0 <= i < at ==> (#[trigger] servers[i]).origin@ != origin@
}

proof fn lemma_entries_at(servers: Seq<ServerData>, origin: Origin, at: int)
    requires
        is_server_at(servers, origin, at),
    ensures
        entries_at(servers, origin) == Some(servers[at].entries),
    decreases servers.len(),
{
    if at > 0 {
        assert(servers[0].origin@ != origin@);
        let rest = servers.drop_first();
        assert forall|i: int| 0 <= i < at - 1 implies (#[trigger] rest[i]).origin@ != origin@ by {
            assert(rest[i] == servers[i + 1]);
        }
        lemma_entries_at(rest, origin, at - 1);
    }
}

/// To show an entry its server is expanded, and then every folder on the way to it.
pub proof fn law_entry_comes_into_sight(
    servers: Seq<ServerData>,
    origin: Origin,
    id: EntryId,
    at: int,
    address: Seq<int>,
)
    requires
        is_server_at(servers, origin, at),
        servers[at].entries matches ServerEntriesData::Loaded { entry_tree } && leads_to_first(
            entry_tree@,
            address,
            id,
        ),
    ensures
        ({
            let item = Item::RedapEntry(origin, RedapEntryKind::Entry(id));
            let tree = servers[at].entries->entry_tree@;
            let all = expansion(servers, item);
            &&& is_settled(servers, item)
            &&& all.len() == address.len()
            &&& all[0] == ExpandKey::Server(origin.scheme, origin.host@, origin.port)
            &&& forall|k: int|
                1 <= k < all.len() ==> #[trigger] all[k] == ExpandKey::Folder(
                    folder_on_the_way(tree, address, (address.len() - 1 - k) as nat),
                )
        }),
{
    lemma_entries_at(servers, origin, at);
    let tree = servers[at].entries->entry_tree@;
    law_all_folders_around_are_expanded(tree, id, address);
    let folders = folders_around(tree, id)->0;
    let all = expansion(servers, Item::RedapEntry(origin, RedapEntryKind::Entry(id)));
    assert forall|k: int| 1 <= k < all.len() implies #[trigger] all[k] == ExpandKey::Folder(
        folder_on_the_way(tree, address, (address.len() - 1 - k) as nat),
    ) by {
        assert(folders[k - 1] == folder_on_the_way(
            tree,
            address,
            (address.len() - 2 - (k - 1)) as nat,
        ));
    }
}

/// The server of an entry is expanded at once. What else is to be expanded is waited for
/// exactly while the server has not listed its entries.
pub proof fn law_listing_is_waited_for(
    servers: Seq<ServerData>,
    origin: Origin,
    id: EntryId,
    at: int,
)
    requires
        is_server_at(servers, origin, at),
    ensures
        ({
            let item = Item::RedapEntry(origin, RedapEntryKind::Entry(id));
            &&& is_settled(servers, item) <==> servers[at].entries is Loaded
            &&& servers[at].entries !is Loaded ==> expansion(servers, item) == seq![
                ExpandKey::Server(origin.scheme, origin.host@, origin.port),
            ]
        }),
{
    lemma_entries_at(servers, origin, at);
}

/// To show a folder its server is expanded, and then the folders that its path leads through,
/// the folder itself the last of them.
pub proof fn law_folder_comes_into_sight(servers: Seq<ServerData>, origin: Origin, path: String, k: int)
    requires
        path@.len() > 0,
    ensures
        ({
            let item = Item::RedapEntry(origin, RedapEntryKind::Folder(path));
            let all = expansion(servers, item);
            &&& is_settled(servers, item)
            &&& all.len() >= 2
            &&& all[0] == ExpandKey::Server(origin.scheme, origin.host@, origin.port)
            &&& all.last() == ExpandKey::Folder(path@)
            &&& 0 < k < path@.len() && path@[k] == '.' ==> all.contains(
                ExpandKey::Folder(path@.take(k)),
            )
        }),
{
    let all = expansion(servers, Item::RedapEntry(origin, RedapEntryKind::Folder(path)));
    let chain = folder_chain(path@);
    assert(all.last() == ExpandKey::Folder(chain.last()));
    if 0 < k < path@.len() && path@[k] == '.' {
        law_folder_chain_is_complete(path@, k);
        let i = choose|i: int| 0 <= i < chain.len() && chain[i] == path@.take(k);
        assert(all[1 + i] == ExpandKey::Folder(path@.take(k)));
    }
}

/// Everything that is to be expanded counts, in its order: a server by its address and a folder
/// by its path.
pub proof fn law_all_that_is_expanded_counts(
    list: Seq<Expandable>,
    paths: Seq<Seq<char>>,
    i: int,
)
    ensures
        keys_of(list).len() == list.len(),
        folder_keys(paths).len() == paths.len(),
        0 <= i < paths.len() ==> folder_keys(paths)[i] == ExpandKey::Folder(paths[i]),
        0 <= i < list.len() ==> match list[i] {
            Expandable::Server(origin) => keys_of(list)[i] == ExpandKey::Server(
                origin.scheme,
                origin.host@,
                origin.port,
            ),
            Expandable::Folder(path) => keys_of(list)[i] == ExpandKey::Folder(path@),
        },
{
}

} // verus!
