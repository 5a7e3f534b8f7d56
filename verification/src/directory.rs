use vstd::prelude::*;
use crate::addr::{MacAddress, PrinterAddr};

verus! {

/// One persisted mapping from a device name to its hardware address.
#[derive(Debug)]
pub struct DirectoryEntry {
    pub name: String,
    pub addr: MacAddress,
}

/// The persisted device directory: a designated default target and a
/// name-to-address mapping with unique names.
#[derive(Debug)]
pub struct DeviceDirectory {
    pub default: PrinterAddr,
    pub entries: Vec<DirectoryEntry>,
}

/// The address of the first entry named `name`, if any.
pub open spec fn lookup_in(entries: Seq<DirectoryEntry>, name: Seq<char>) -> Option<MacAddress>
    decreases entries.len(),
{
    if entries.len() == 0 {
        None
    } else if entries[0].name@ == name {
        Some(entries[0].addr)
    } else {
        lookup_in(entries.drop_first(), name)
    }
}

/// A name is absent exactly when no entry carries it.
pub proof fn lemma_lookup_none_iff_absent(entries: Seq<DirectoryEntry>, name: Seq<char>)
    ensures
        lookup_in(entries, name) is None <==> (forall|k: int|
            0 <= k < entries.len() ==> entries[k].name@ != name),
    decreases entries.len(),
{
    if entries.len() > 0 {
        lemma_lookup_none_iff_absent(entries.drop_first(), name);
        assert(forall|k: int| 1 <= k < entries.len() ==> entries.drop_first()[k - 1] == entries[k]);
    }
}

impl DeviceDirectory {
    /// Every name appears at most once.
    pub open spec fn wf(&self) -> bool {
        forall|i: int, j: int|
            0 <= i < j < self.entries@.len() ==> self.entries@[i].name@ != self.entries@[j].name@
    }

    /// A directory with the given default target and no name mappings yet.
    pub fn new(default: PrinterAddr) -> (d: DeviceDirectory)
        ensures
            d.wf(),
            d.default == default,
            d.entries@.len() == 0,
    {
        DeviceDirectory { default, entries: Vec::new() }
    }

    /// The address of the first entry named `name`, if any.
    pub open spec fn lookup_spec(&self, name: Seq<char>) -> Option<MacAddress> {
        lookup_in(self.entries@, name)
    }

    /// Looks a device name up in the resolution mapping.
    pub fn lookup(&self, name: &String) -> (r: Option<MacAddress>)
        ensures
            r == self.lookup_spec(name@),
    {
        let ghost all = self.entries@;
        proof {
            assert(all.skip(0) =~= all);
        }
        let mut i: usize = 0;
        while i < self.entries.len()
            invariant
                0 <= i <= all.len(),
                all == self.entries@,
                lookup_in(all, name@) == lookup_in(all.skip(i as int), name@),
            decreases all.len() - i,
        {
            proof {
                assert(all.skip(i as int)[0] == all[i as int]);
            }
            if self.entries[i].name == *name {
                return Some(self.entries[i].addr);
            }
            proof {
                assert(all.skip(i as int).drop_first() =~= all.skip(i as int + 1));
            }
            i = i + 1;
        }
        proof {
            assert(all.skip(all.len() as int) =~= Seq::<DirectoryEntry>::empty());
        }
        None
    }

    /// Adds a mapping. A name already present is refused, which keeps the
    /// names unique; the directory is then unchanged.
    pub fn add_entry(&mut self, name: String, addr: MacAddress) -> (added: bool)
        requires
            old(self).wf(),
        ensures
            final(self).wf(),
            final(self).default == old(self).default,
            added == (old(self).lookup_spec(name@) is None),
            added ==> final(self).entries@ == old(self).entries@.push(
                (DirectoryEntry { name, addr }),
            ),
            !added ==> final(self).entries@ == old(self).entries@,
    {
        if self.lookup(&name).is_some() {
            return false;
        }
        proof {
            lemma_lookup_none_iff_absent(self.entries@, name@);
        }
        self.entries.push(DirectoryEntry { name, addr });
        true
    }
}

} // verus!
