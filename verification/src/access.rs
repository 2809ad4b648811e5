use vstd::prelude::*;
use crate::common::Copyable;
use crate::identity::Identity;

verus! {

/// What a grantee may do with a record, and until when the grant is meant
/// to last. The expiry is advisory: nothing here enforces it.
#[derive(Clone, Copy, PartialEq, Eq, Debug)]
pub struct AccessPermission {
    pub can_view: bool,
    pub can_edit: bool,
    pub can_share: bool,
    pub is_anonymized: bool,
    pub expiry: Option<u64>,
}

impl AccessPermission {
    /// Everything an owner may do, without expiry.
    pub open spec fn full_spec() -> AccessPermission {
        AccessPermission {
            can_view: true,
            can_edit: true,
            can_share: true,
            is_anonymized: false,
            expiry: None,
        }
    }

    /// Viewing only, without expiry: what an approved request gives.
    pub open spec fn view_only_spec() -> AccessPermission {
        AccessPermission {
            can_view: true,
            can_edit: false,
            can_share: false,
            is_anonymized: false,
            expiry: None,
        }
    }

    /// Viewing of the anonymized form only: what the research pool gets.
    pub open spec fn research_spec() -> AccessPermission {
        AccessPermission {
            can_view: true,
            can_edit: false,
            can_share: false,
            is_anonymized: true,
            expiry: None,
        }
    }

    /// Everything an owner may do, without expiry.
    pub fn full() -> (p: AccessPermission)
        ensures
            p == Self::full_spec(),
    {
        AccessPermission {
            can_view: true,
            can_edit: true,
            can_share: true,
            is_anonymized: false,
            expiry: None,
        }
    }

    /// Viewing only, without expiry.
    pub fn view_only() -> (p: AccessPermission)
        ensures
            p == Self::view_only_spec(),
    {
        AccessPermission {
            can_view: true,
            can_edit: false,
            can_share: false,
            is_anonymized: false,
            expiry: None,
        }
    }

    /// Viewing of the anonymized form only.
    pub fn research() -> (p: AccessPermission)
        ensures
            p == Self::research_spec(),
    {
        AccessPermission {
            can_view: true,
            can_edit: false,
            can_share: false,
            is_anonymized: true,
            expiry: None,
        }
    }
}

/// One grant: who, and what they may do.
pub struct AccessEntry {
    pub grantee: Identity,
    pub permission: AccessPermission,
}

/// Whether some entry of `entries` names `grantee`.
pub open spec fn names_grantee(entries: Seq<AccessEntry>, grantee: Seq<u8>) -> bool {
    exists|i: int| 0 <= i < entries.len() && #[trigger] entries[i].grantee@ == grantee
}

/// The place of the entry that names `grantee`.
pub open spec fn place_of(entries: Seq<AccessEntry>, grantee: Seq<u8>) -> int {
    choose|i: int| 0 <= i < entries.len() && #[trigger] entries[i].grantee@ == grantee
}

/// The map from grantee to permission that a list of entries stands for.
pub open spec fn access_map(entries: Seq<AccessEntry>) -> Map<Seq<u8>, AccessPermission> {
    Map::new(
        |g: Seq<u8>| names_grantee(entries, g),
        |g: Seq<u8>| entries[place_of(entries, g)].permission,
    )
}

/// No grantee is named twice.
pub open spec fn distinct_grantees(entries: Seq<AccessEntry>) -> bool {
    forall|i: int, j: int|
        0 <= i < j < entries.len() ==> #[trigger] entries[i].grantee@ != #[trigger] entries[j].grantee@
}

/// The access list of a record: for each grantee one permission.
pub struct AccessList {
    entries: Vec<AccessEntry>,
}

impl View for AccessList {
    type V = Map<Seq<u8>, AccessPermission>;

    closed spec fn view(&self) -> Map<Seq<u8>, AccessPermission> {
        access_map(self.entries@)
    }
}

impl AccessList {
    #[verifier::type_invariant]
    spec fn distinct(self) -> bool {
        distinct_grantees(self.entries@)
    }

    /// The grantees in the order in which the list holds them.
    pub closed spec fn grantees(&self) -> Seq<Seq<u8>> {
        Seq::new(self.entries@.len(), |i: int| self.entries@[i].grantee@)
    }

    /// A list that names nobody.
    pub fn new() -> (list: AccessList)
        ensures
            list@ =~= Map::empty(),
            list.grantees() =~= Seq::empty(),
    {
        AccessList { entries: Vec::new() }
    }

    fn find(&self, grantee: &Identity) -> (r: Option<usize>)
        ensures
            r matches Some(i) ==> i < self.entries@.len() && self.entries@[i as int].grantee@
                == grantee@,
            r is None ==> !names_grantee(self.entries@, grantee@),
    {
        let mut i: usize = 0;
        while i < self.entries.len()
            invariant
                i <= self.entries@.len(),
                forall|j: int| 0 <= j < i ==> self.entries@[j].grantee@ != grantee@,
            decreases self.entries@.len() - i,
        {
            if self.entries[i].grantee.same(grantee) {
                return Some(i);
            }
            i = i + 1;
        }
        None
    }

    /// The permission granted to `grantee`, if any.
    pub fn get(&self, grantee: &Identity) -> (r: Option<AccessPermission>)
        ensures
            r is Some <==> self@.dom().contains(grantee@),
            r matches Some(p) ==> p == self@[grantee@],
    {
        proof {
            use_type_invariant(self);
        }
        match self.find(grantee) {
            Some(i) => {
                assert(names_grantee(self.entries@, grantee@));
                Some(self.entries[i].permission)
            },
            None => None,
        }
    }

    /// How many grantees the list names. The places hold each grantee once.
    pub fn len(&self) -> (n: usize)
        ensures
            n == self.grantees().len(),
            self.grantees().no_duplicates(),
            self.grantees().to_set() == self@.dom(),
    {
        proof {
            use_type_invariant(self);
            let gs = self.grantees();
            assert forall|g: Seq<u8>| gs.to_set().contains(g) <==> self@.dom().contains(g) by {
                if gs.to_set().contains(g) {
                    let i = choose|i: int| 0 <= i < gs.len() && gs[i] == g;
                    assert(self.entries@[i].grantee@ == g);
                }
                if self@.dom().contains(g) {
                    let i = place_of(self.entries@, g);
                    assert(gs[i] == g);
                }
            }
            assert(gs.to_set() =~= self@.dom());
        }
        self.entries.len()
    }

    /// The grantee and permission at place `i`.
    pub fn entry(&self, i: usize) -> (e: &AccessEntry)
        requires
            i < self.grantees().len(),
        ensures
            e.grantee@ == self.grantees()[i as int],
            self@.dom().contains(e.grantee@),
            e.permission == self@[e.grantee@],
    {
        proof {
            use_type_invariant(self);
            assert(self.entries@[i as int].grantee@ == self.entries@[i as int].grantee@);
            assert(names_grantee(self.entries@, self.entries@[i as int].grantee@));
        }
        &self.entries[i]
    }

    /// Gives `grantee` the permission `permission`, in place of any it had.
    pub fn insert(&mut self, grantee: Identity, permission: AccessPermission)
        ensures
            final(self)@ == old(self)@.insert(grantee@, permission),
    {
        proof {
            use_type_invariant(&*self);
        }
        let ghost before = self.entries@;
        let ghost g = grantee@;
        let found = self.find(&grantee);
        let mut entries: Vec<AccessEntry> = Vec::new();
        std::mem::swap(&mut entries, &mut self.entries);
        match found {
            Some(i) => {
                entries.set(i, AccessEntry { grantee, permission });
                proof {
                    let after = entries@;
                    assert forall|h: Seq<u8>| names_grantee(after, h) <==> names_grantee(before, h)
                        || h == g by {
                        if names_grantee(after, h) {
                            let j = place_of(after, h);
                            assert(before[j].grantee@ == h);
                        }
                        if names_grantee(before, h) {
                            let j = place_of(before, h);
                            assert(after[j].grantee@ == h);
                        }
                        if h == g {
                            assert(after[i as int].grantee@ == h);
                        }
                    }
                    assert forall|h: Seq<u8>| names_grantee(after, h) implies #[trigger] access_map(
                        after,
                    )[h] == access_map(before).insert(g, permission)[h] by {
                        let j = place_of(after, h);
                        if h != g {
                            assert(before[j].grantee@ == h);
                            let k = place_of(before, h);
                            assert(j == k);
                        } else {
                            assert(j == i);
                        }
                    }
                    assert(access_map(after) =~= access_map(before).insert(g, permission));
                }
            },
            None => {
                entries.push(AccessEntry { grantee, permission });
                proof {
                    let after = entries@;
                    let n = before.len() as int;
                    assert forall|h: Seq<u8>| names_grantee(after, h) <==> names_grantee(before, h)
                        || h == g by {
                        if names_grantee(after, h) {
                            let j = place_of(after, h);
                            if j < n {
                                assert(before[j].grantee@ == h);
                            }
                        }
                        if names_grantee(before, h) {
                            let j = place_of(before, h);
                            assert(after[j].grantee@ == h);
                        }
                        if h == g {
                            assert(after[n].grantee@ == h);
                        }
                    }
                    assert forall|h: Seq<u8>| names_grantee(after, h) implies #[trigger] access_map(
                        after,
                    )[h] == access_map(before).insert(g, permission)[h] by {
                        let j = place_of(after, h);
                        if h != g {
                            assert(j < n);
                            assert(before[j].grantee@ == h);
                            let k = place_of(before, h);
                            assert(j == k);
                        } else {
                            assert(after[n].grantee@ == g);
                            assert(j == n);
                        }
                    }
                    assert(access_map(after) =~= access_map(before).insert(g, permission));
                }
            },
        }
        self.entries = entries;
    }

    /// Takes away whatever `grantee` was granted.
    pub fn remove(&mut self, grantee: &Identity)
        ensures
            final(self)@ == old(self)@.remove(grantee@),
    {
        proof {
            use_type_invariant(&*self);
        }
        let ghost before = self.entries@;
        let ghost g = grantee@;
        let found = self.find(grantee);
        match found {
            Some(i) => {
                let mut entries: Vec<AccessEntry> = Vec::new();
                std::mem::swap(&mut entries, &mut self.entries);
                let _ = entries.remove(i);
                proof {
                    let after = entries@;
                    assert forall|h: Seq<u8>| names_grantee(after, h) <==> names_grantee(before, h)
                        && h != g by {
                        if names_grantee(after, h) {
                            let j = place_of(after, h);
                            if j < i {
                                assert(before[j].grantee@ == h);
                            } else {
                                assert(before[j + 1].grantee@ == h);
                            }
                        }
                        if names_grantee(before, h) && h != g {
                            let j = place_of(before, h);
                            if j < i {
                                assert(after[j].grantee@ == h);
                            } else {
                                assert(after[j - 1].grantee@ == h);
                            }
                        }
                    }
                    assert forall|h: Seq<u8>| names_grantee(after, h) implies #[trigger] access_map(
                        after,
                    )[h] == access_map(before).remove(g)[h] by {
                        let j = place_of(after, h);
                        let k = place_of(before, h);
                        if j < i {
                            assert(before[j].grantee@ == h);
                            assert(j == k);
                        } else {
                            assert(before[j + 1].grantee@ == h);
                            assert(j + 1 == k);
                        }
                    }
                    assert(access_map(after) =~= access_map(before).remove(g));
                }
                self.entries = entries;
            },
            None => {
                assert(access_map(before) =~= access_map(before).remove(g));
            },
        }
    }
}

impl Copyable for AccessList {
    fn duplicate(&self) -> (r: Self) {
        proof {
            use_type_invariant(self);
        }
        let mut entries: Vec<AccessEntry> = Vec::new();
        let mut i: usize = 0;
        while i < self.entries.len()
            invariant
                i <= self.entries@.len(),
                entries@.len() == i,
                forall|j: int|
                    0 <= j < i ==> (#[trigger] entries@[j]).grantee@ == self.entries@[j].grantee@
                        && entries@[j].permission == self.entries@[j].permission,
            decreases self.entries@.len() - i,
        {
            let e = &self.entries[i];
            entries.push(AccessEntry { grantee: e.grantee.duplicate(), permission: e.permission });
            i = i + 1;
        }
        proof {
            let a = entries@;
            let b = self.entries@;
            assert forall|h: Seq<u8>| names_grantee(a, h) <==> names_grantee(b, h) by {
                if names_grantee(a, h) {
                    let j = place_of(a, h);
                    assert(b[j].grantee@ == h);
                }
                if names_grantee(b, h) {
                    let j = place_of(b, h);
                    assert(a[j].grantee@ == h);
                }
            }
            assert forall|h: Seq<u8>| names_grantee(a, h) implies #[trigger] access_map(a)[h]
                == access_map(b)[h] by {
                let j = place_of(a, h);
                let k = place_of(b, h);
                assert(b[j].grantee@ == h);
                assert(j == k);
            }
            assert(access_map(a) =~= access_map(b));
            assert(Seq::new(a.len(), |i: int| a[i].grantee@) =~= Seq::new(
                b.len(),
                |i: int| b[i].grantee@,
            ));
        }
        AccessList { entries }
    }
}

} // verus!
