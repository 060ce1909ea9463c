//! Where the nodes of a device are found.

use vstd::prelude::*;

verus! {

/// A node of a device and its path.
#[derive(Debug)]
pub struct NodePath {
    pub name: String,
    pub path: String,
}

/// The nodes of a device, by name. Of two entries with the same name the later
/// one counts.
#[derive(Debug)]
pub struct DevfsPath {
    pub device_paths: Vec<NodePath>,
}

/// The paths that `entries` give to names.
pub open spec fn path_map(entries: Seq<NodePath>) -> Map<Seq<char>, Seq<char>>
    decreases entries.len(),
{
    if entries.len() == 0 {
        Map::empty()
    } else {
        path_map(entries.drop_last()).insert(entries.last().name@, entries.last().path@)
    }
}

impl View for DevfsPath {
    type V = Map<Seq<char>, Seq<char>>;

    open spec fn view(&self) -> Map<Seq<char>, Seq<char>> {
        path_map(self.device_paths@)
    }
}

impl DevfsPath {
    /// No nodes.
    pub fn new() -> (paths: DevfsPath)
        ensures
            paths@ == Map::<Seq<char>, Seq<char>>::empty(),
    {
        DevfsPath { device_paths: Vec::new() }
    }

    /// Adds the node `name`, or gives it another path.
    pub fn insert(&mut self, name: String, path: String)
        ensures
            final(self)@ == old(self)@.insert(name@, path@),
    {
        self.device_paths.push(NodePath { name, path });
        assert(self.device_paths@.drop_last() =~= old(self).device_paths@);
    }

    /// The path of the node `name`.
    pub fn get(&self, name: &String) -> (path: Option<&String>)
        ensures
            match path {
                Some(p) => self@.contains_key(name@) && p@ == self@[name@],
                None => !self@.contains_key(name@),
            },
    {
        let ghost all = self.device_paths@;
        let mut i: usize = self.device_paths.len();
        assert(all.take(i as int) =~= all);
        while i > 0
            invariant
                i <= self.device_paths@.len(),
                all == self.device_paths@,
                path_map(all).contains_key(name@) == path_map(all.take(i as int)).contains_key(name@),
                path_map(all)[name@] == path_map(all.take(i as int))[name@],
            decreases i,
        {
            i = i - 1;
            let ghost rest = all.take(i + 1);
            assert(rest.drop_last() =~= all.take(i as int));
            assert(rest.last() == all[i as int]);
            if self.device_paths[i].name == *name {
                return Some(&self.device_paths[i].path);
            }
        }
        None
    }
}

} // verus!
