use vstd::prelude::*;
use crate::client::ClientId;

verus! {

/// One live connection: the transport's connection id and the identity the
/// unit declared when it connected.
pub struct RegistryEntry {
    pub sid: String,
    pub client: ClientId,
}

/// The identity the first entry with connection id `sid` maps to. Newer
/// registrations are kept in front, so this is the identity currently in
/// force for the connection.
pub open spec fn spec_find(entries: Seq<RegistryEntry>, sid: Seq<char>) -> Option<ClientId>
    decreases entries.len(),
{
    if entries.len() == 0 {
        None
    } else if entries[0].sid@ == sid {
        Some(entries[0].client)
    } else {
        spec_find(entries.drop_first(), sid)
    }
}

/// Appending an entry changes only the lookups that found nothing before.
proof fn lemma_find_push(entries: Seq<RegistryEntry>, e: RegistryEntry, sid: Seq<char>)
    ensures
        spec_find(entries.push(e), sid) == if spec_find(entries, sid) is Some {
            spec_find(entries, sid)
        } else if e.sid@ == sid {
            Some(e.client)
        } else {
            None
        },
    decreases entries.len(),
{
    if entries.len() == 0 {
        assert(entries.push(e)[0] == e);
        assert(entries.push(e).drop_first() =~= entries);
    } else {
        assert(entries.push(e)[0] == entries[0]);
        assert(entries.push(e).drop_first() =~= entries.drop_first().push(e));
        lemma_find_push(entries.drop_first(), e, sid);
    }
}

/// Maps each live connection to the identity it declared, scoping broadcasts
/// into identity groups. Connections that present no valid identity are never
/// entered (fail-closed).
pub struct ConnectionRegistry {
    pub entries: Vec<RegistryEntry>,
}

impl ConnectionRegistry {
    /// The identity registered for connection `sid`, if any.
    pub open spec fn lookup(self, sid: Seq<char>) -> Option<ClientId> {
        spec_find(self.entries@, sid)
    }

    pub fn new() -> (r: ConnectionRegistry)
        ensures
            r.entries@.len() == 0,
            forall|sid: Seq<char>| #[trigger] r.lookup(sid) is None,
    {
        ConnectionRegistry { entries: Vec::new() }
    }

    /// Registers `client` as the identity of connection `sid`; a new
    /// registration for the same connection replaces the old one.
    pub fn insert(&mut self, sid: String, client: ClientId)
        ensures
            final(self).lookup(sid@) == Some(client),
            forall|k: Seq<char>|
                k != sid@ ==> #[trigger] final(self).lookup(k) == old(self).lookup(k),
    {
        let ghost old_entries = self.entries@;
        let entry = RegistryEntry { sid, client };
        self.entries.insert(0, entry);
        proof {
            assert(self.entries@.drop_first() =~= old_entries);
        }
    }

    /// The identity of connection `sid`, if it is registered.
    pub fn get(&self, sid: &String) -> (r: Option<ClientId>)
        ensures
            r == self.lookup(sid@),
    {
        let mut i: usize = 0;
        proof {
            assert(self.entries@.skip(0) =~= self.entries@);
        }
        while i < self.entries.len()
            invariant
                i <= self.entries@.len(),
                spec_find(self.entries@, sid@) == spec_find(
                    self.entries@.skip(i as int),
                    sid@,
                ),
            decreases self.entries@.len() - i,
        {
            proof {
                assert(self.entries@.skip(i as int)[0] == self.entries@[i as int]);
                assert(self.entries@.skip(i as int).drop_first() =~= self.entries@.skip(
                    i + 1,
                ));
            }
            if self.entries[i].sid == *sid {
                return Some(self.entries[i].client);
            }
            i += 1;
        }
        None
    }

    /// Drops every registration of connection `sid` (a disconnect), and
    /// returns the identity that was in force, if any.
    pub fn remove(&mut self, sid: &String) -> (r: Option<ClientId>)
        ensures
            r == old(self).lookup(sid@),
            final(self).lookup(sid@) is None,
            forall|k: Seq<char>|
                k != sid@ ==> #[trigger] final(self).lookup(k) == old(self).lookup(k),
    {
        let ghost all = self.entries@;
        let mut kept: Vec<RegistryEntry> = Vec::new();
        let mut found: Option<ClientId> = None;
        let mut i: usize = 0;
        while i < self.entries.len()
            invariant
                i <= self.entries@.len(),
                self.entries@ == all,
                found == spec_find(all.take(i as int), sid@),
                spec_find(kept@, sid@) is None,
                forall|k: Seq<char>|
                    k != sid@ ==> #[trigger] spec_find(kept@, k) == spec_find(
                        all.take(i as int),
                        k,
                    ),
            decreases self.entries@.len() - i,
        {
            let ghost kept_before = kept@;
            let entry = &self.entries[i];
            proof {
                assert(all.take(i + 1) =~= all.take(i as int).push(all[i as int]));
            }
            if entry.sid == *sid {
                if found.is_none() {
                    found = Some(entry.client);
                }
                proof {
                    lemma_find_push(all.take(i as int), all[i as int], sid@);
                    assert forall|k: Seq<char>| k != sid@ implies #[trigger] spec_find(kept@, k)
                        == spec_find(all.take(i + 1), k) by {
                        lemma_find_push(all.take(i as int), all[i as int], k);
                    }
                }
            } else {
                kept.push(RegistryEntry { sid: entry.sid.clone(), client: entry.client });
                proof {
                    assert(kept@ =~= kept_before.push(kept@.last()));
                    assert(kept@.last().sid@ == all[i as int].sid@);
                    assert(kept@.last().client == all[i as int].client);
                    lemma_find_push(all.take(i as int), all[i as int], sid@);
                    lemma_find_push(kept_before, kept@.last(), sid@);
                    assert forall|k: Seq<char>| k != sid@ implies #[trigger] spec_find(kept@, k)
                        == spec_find(all.take(i + 1), k) by {
                        lemma_find_push(all.take(i as int), all[i as int], k);
                        lemma_find_push(kept_before, kept@.last(), k);
                    }
                }
            }
            i += 1;
        }
        proof {
            assert(all.take(all.len() as int) =~= all);
        }
        self.entries = kept;
        found
    }
}

} // verus!
