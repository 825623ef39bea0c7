//! The registry of destination ids this process has registered with the
//! device, with idempotent best-effort cleanup. The registry is the only
//! record of which server-side destinations are ours; its contents drive both
//! event matching and shutdown cleanup.

use vstd::prelude::*;

use crate::objects::{AddDestinationError, StateError};
use crate::strutil::{last_segment, spec_last_segment, str_eq};

verus! {

/// The canonical text of the destination id that a location string parses
/// as, where it parses as one.
pub uninterp spec fn uuid_canon_of(s: Seq<char>) -> Option<Seq<char>>;

/// Relies on uuid::Uuid::parse_str and the uuid crate's hyphenated display
/// form: whether a string parses as a UUID, and the canonical text of the
/// parsed value, depend on the characters of the string alone.
#[verifier::external_body]
fn canonicalize_uuid(s: &str) -> (r: Option<String>)
    ensures
        r matches Some(t) ==> uuid_canon_of(s@) == Some(t@),
        r is None ==> uuid_canon_of(s@) is None,
{
    match uuid::Uuid::parse_str(s) {
        Ok(u) => Some(u.to_string()),
        Err(_) => None,
    }
}

/// The device-visible destination state after removing each id of `ids` in
/// order from the set `visible`.
pub open spec fn remove_all(visible: Set<Seq<char>>, ids: Seq<Seq<char>>) -> Set<Seq<char>>
    decreases ids.len(),
{
    if ids.len() == 0 {
        visible
    } else {
        remove_all(visible.remove(ids[0]), ids.subrange(1, ids.len() as int))
    }
}

/// The ordered collection of destination ids registered by this process and
/// not yet handed to a removal attempt.
pub struct DestinationRegistry {
    pub ids: Vec<String>,
}

impl View for DestinationRegistry {
    type V = Seq<Seq<char>>;

    open spec fn view(&self) -> Seq<Seq<char>> {
        self.ids@.map_values(|s: String| s@)
    }
}

impl DestinationRegistry {
    /// A registry tracking no destinations.
    pub fn new() -> (r: DestinationRegistry)
        ensures
            r@ == Seq::<Seq<char>>::empty(),
    {
        let r = DestinationRegistry { ids: Vec::new() };
        proof {
            assert(r@ =~= Seq::<Seq<char>>::empty());
        }
        r
    }

    /// Records a successful registration from the location string the device
    /// returned: the id is the location's last path segment, kept in its
    /// canonical text. A location whose last segment is not a well-formed id
    /// fails this registration only and leaves the registry untouched.
    pub fn record_registration(&mut self, location: &str) -> (r: Result<String, AddDestinationError>)
        ensures
            match r {
                Ok(id) => uuid_canon_of(spec_last_segment(location@)) == Some(id@)
                    && final(self)@ == old(self)@.push(id@),
                Err(_) => uuid_canon_of(spec_last_segment(location@)) is None && final(self)@
                    == old(self)@,
            },
    {
        let segment = last_segment(location);
        match canonicalize_uuid(segment.as_str()) {
            Some(id) => {
                let returned = id.clone();
                self.ids.push(id);
                proof {
                    assert(final(self)@ =~= old(self)@.push(returned@));
                }
                Ok(returned)
            },
            None => Err(AddDestinationError),
        }
    }

    /// Empties the registry and hands back, in registration order, every id
    /// a removal must be attempted for. A second invocation finds the
    /// registry empty and hands back nothing.
    pub fn cleanup(&mut self) -> (removed: Vec<String>)
        ensures
            final(self)@ == Seq::<Seq<char>>::empty(),
            removed@.map_values(|s: String| s@) == old(self)@,
    {
        let mut drained: Vec<String> = Vec::new();
        core::mem::swap(&mut self.ids, &mut drained);
        proof {
            assert(final(self)@ =~= Seq::<Seq<char>>::empty());
        }
        drained
    }

    /// Records that a removal succeeded for `id`: the first tracked copy of
    /// the id leaves the registry. Reporting an id the registry never
    /// tracked is a bookkeeping inconsistency, surfaced as an error and
    /// changing nothing.
    pub fn note_removed(&mut self, id: &str) -> (r: Result<(), StateError>)
        ensures
            match r {
                Ok(()) => exists|k: int|
                    0 <= k < old(self)@.len() && old(self)@[k] == id@ && (forall|j: int|
                        0 <= j < k ==> old(self)@[j] != id@) && final(self)@ == old(
                        self,
                    )@.remove(k),
                Err(_) => (forall|k: int| 0 <= k < old(self)@.len() ==> old(self)@[k] != id@)
                    && final(self)@ == old(self)@,
            },
    {
        let len = self.ids.len();
        let mut i: usize = 0;
        while i < len
            invariant
                len == self.ids@.len(),
                i <= len,
                *self == *old(self),
                forall|j: int| 0 <= j < i ==> old(self)@[j] != id@,
            decreases len - i,
        {
            if str_eq(self.ids[i].as_str(), id) {
                self.ids.remove(i);
                proof {
                    assert(final(self)@ =~= old(self)@.remove(i as int));
                }
                return Ok(());
            }
            i += 1;
        }
        Err(StateError)
    }

    /// The id at one position of the registry's iteration order.
    pub fn id_at(&self, i: usize) -> (r: &String)
        requires
            i < self@.len(),
        ensures
            r@ == self@[i as int],
    {
        &self.ids[i]
    }

    /// Whether the registry currently tracks no ids.
    pub fn is_empty(&self) -> (r: bool)
        ensures
            r == (self@.len() == 0),
    {
        self.ids.len() == 0
    }
}

proof fn lemma_remove_all_subset(visible: Set<Seq<char>>, ids: Seq<Seq<char>>)
    ensures
        remove_all(visible, ids).subset_of(visible),
    decreases ids.len(),
{
    if ids.len() > 0 {
        lemma_remove_all_subset(visible.remove(ids[0]), ids.subrange(1, ids.len() as int));
    }
}

proof fn lemma_remove_all_push(visible: Set<Seq<char>>, ids: Seq<Seq<char>>, id: Seq<char>)
    ensures
        remove_all(visible, ids.push(id)) == remove_all(visible, ids).remove(id),
    decreases ids.len(),
{
    if ids.len() == 0 {
        assert(ids.push(id)[0] == id);
        assert(ids.push(id).subrange(1, 1) =~= Seq::<Seq<char>>::empty());
        assert(remove_all(visible, ids.push(id)) == remove_all(
            visible.remove(id),
            ids.push(id).subrange(1, 1),
        ));
        assert(remove_all(visible.remove(id), Seq::<Seq<char>>::empty()) == visible.remove(id));
    } else {
        let rest = ids.subrange(1, ids.len() as int);
        assert(ids.push(id)[0] == ids[0]);
        assert(ids.push(id).subrange(1, ids.len() as int + 1) =~= rest.push(id));
        assert(remove_all(visible, ids.push(id)) == remove_all(
            visible.remove(ids[0]),
            rest.push(id),
        ));
        assert(remove_all(visible, ids) == remove_all(visible.remove(ids[0]), rest));
        lemma_remove_all_push(visible.remove(ids[0]), rest, id);
    }
}

proof fn lemma_remove_all_insert_remove(visible: Set<Seq<char>>, ids: Seq<Seq<char>>, id: Seq<char>)
    ensures
        remove_all(visible.insert(id), ids).remove(id) == remove_all(visible, ids).remove(id),
    decreases ids.len(),
{
    if ids.len() == 0 {
        assert(visible.insert(id).remove(id) =~= visible.remove(id));
    } else {
        let head = ids[0];
        let rest = ids.subrange(1, ids.len() as int);
        if head == id {
            assert(visible.insert(id).remove(id) =~= visible.remove(id));
        } else {
            assert(visible.insert(id).remove(head) =~= visible.remove(head).insert(id));
            lemma_remove_all_insert_remove(visible.remove(head), rest, id);
        }
    }
}

/// Round-trip law: registering a destination the device does not yet show
/// and then cleaning up leaves the device-visible destination state that the
/// same cleanup would have left without the registration. The registered id
/// enters the registry, cleanup removes every tracked id, and the new id's
/// removal exactly undoes its registration.
pub proof fn lemma_register_then_cleanup(
    visible: Set<Seq<char>>,
    registered: Seq<Seq<char>>,
    id: Seq<char>,
)
    requires
        !visible.contains(id),
    ensures
        remove_all(visible.insert(id), registered.push(id)) == remove_all(visible, registered),
{
    lemma_remove_all_push(visible.insert(id), registered, id);
    lemma_remove_all_insert_remove(visible, registered, id);
    lemma_remove_all_subset(visible, registered);
    assert(remove_all(visible, registered).remove(id) =~= remove_all(visible, registered));
}

/// Round-trip law for a registry that tracked nothing beforehand: after
/// registering a fresh destination and cleaning up, the device shows exactly
/// the destinations it showed before the registration.
pub proof fn lemma_add_then_cleanup_round_trip(visible: Set<Seq<char>>, id: Seq<char>)
    requires
        !visible.contains(id),
    ensures
        remove_all(visible.insert(id), Seq::<Seq<char>>::empty().push(id)) == visible,
{
    lemma_register_then_cleanup(visible, Seq::<Seq<char>>::empty(), id);
}

/// Idempotence law: cleanup leaves the registry empty, so a second cleanup
/// hands back no ids to remove, and removing no ids produces no additional
/// observable effect on the device.
pub proof fn lemma_cleanup_idempotent(visible: Set<Seq<char>>, ids: Seq<Seq<char>>)
    ensures
        remove_all(remove_all(visible, ids), Seq::<Seq<char>>::empty()) == remove_all(
            visible,
            ids,
        ),
{
}

} // verus!
