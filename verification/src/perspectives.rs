//! Perspectives: handles, live instances, and the registry that owns them.
//!
//! A [`PerspectiveHandle`] is the persisted identity of one knowledge-graph
//! unit; a [`PerspectiveInstance`] wraps the handle together with runtime
//! state (synchronization mode and the diffs delivered to it, in delivery
//! order); the [`PerspectiveRegistry`] is the directory mapping identity to
//! instance. The registry is an explicitly constructed value: the composition
//! root owns it and wraps it in whatever lock the surrounding runtime uses,
//! so every caller reads and writes the same underlying state.

use vstd::prelude::*;

use crate::CoreError;

verus! {

/// The shared configuration of a synchronization channel. `link_language` is
/// the address of the transport all participants of the neighbourhood use.
#[derive(Debug)]
pub struct NeighbourhoodData {
    pub link_language: String,
}

/// The spec-level image of a [`NeighbourhoodData`].
pub struct NeighbourhoodDataV {
    pub link_language: Seq<char>,
}

impl View for NeighbourhoodData {
    type V = NeighbourhoodDataV;

    open spec fn view(&self) -> NeighbourhoodDataV {
        NeighbourhoodDataV { link_language: self.link_language@ }
    }
}

/// The binding of a perspective to a peer-to-peer synchronization channel.
#[derive(Debug)]
pub struct Neighbourhood {
    pub data: NeighbourhoodData,
}

/// The spec-level image of a [`Neighbourhood`].
pub struct NeighbourhoodV {
    pub data: NeighbourhoodDataV,
}

impl View for Neighbourhood {
    type V = NeighbourhoodV;

    open spec fn view(&self) -> NeighbourhoodV {
        NeighbourhoodV { data: self.data@ }
    }
}

/// The persisted identity of a perspective: a registry-unique `uuid`, an
/// optional mutable human `name`, and an optional neighbourhood binding that
/// makes the perspective a participant in distributed synchronization.
#[derive(Debug)]
pub struct PerspectiveHandle {
    pub uuid: String,
    pub name: Option<String>,
    pub neighbourhood: Option<Neighbourhood>,
}

/// The spec-level image of a [`PerspectiveHandle`].
pub struct PerspectiveHandleV {
    pub uuid: Seq<char>,
    pub name: Option<Seq<char>>,
    pub neighbourhood: Option<NeighbourhoodV>,
}

impl View for PerspectiveHandle {
    type V = PerspectiveHandleV;

    open spec fn view(&self) -> PerspectiveHandleV {
        PerspectiveHandleV {
            uuid: self.uuid@,
            name: self.name.deep_view(),
            neighbourhood: match self.neighbourhood {
                Some(n) => Some(n@),
                None => None,
            },
        }
    }
}

/// An incremental change set applied to a perspective's graph: links added
/// and links removed, each carried as its serialized expression.
#[derive(Debug)]
pub struct PerspectiveDiff {
    pub additions: Vec<String>,
    pub removals: Vec<String>,
}

/// The spec-level image of a [`PerspectiveDiff`].
pub struct PerspectiveDiffV {
    pub additions: Seq<Seq<char>>,
    pub removals: Seq<Seq<char>>,
}

impl View for PerspectiveDiff {
    type V = PerspectiveDiffV;

    open spec fn view(&self) -> PerspectiveDiffV {
        PerspectiveDiffV {
            additions: self.additions.deep_view(),
            removals: self.removals.deep_view(),
        }
    }
}

/// The two modes of an instance: no neighbourhood binding, or bound to a
/// channel with background synchronization expected to run.
#[derive(Debug)]
pub enum SyncState {
    Unsynchronized,
    Synchronizing,
}

/// One live perspective: the canonical persisted handle, whether it was
/// created by joining a neighbourhood, its synchronization mode, and every
/// diff delivered to it from its channel, in delivery order.
#[derive(Debug)]
pub struct PerspectiveInstance {
    pub persisted: PerspectiveHandle,
    pub created_from_join: bool,
    pub sync_state: SyncState,
    pub received_diffs: Vec<PerspectiveDiff>,
}

/// The spec-level image of a [`PerspectiveInstance`].
pub struct PerspectiveInstanceV {
    pub persisted: PerspectiveHandleV,
    pub created_from_join: bool,
    pub sync_state: SyncState,
    pub received_diffs: Seq<PerspectiveDiffV>,
}

impl View for PerspectiveInstance {
    type V = PerspectiveInstanceV;

    open spec fn view(&self) -> PerspectiveInstanceV {
        PerspectiveInstanceV {
            persisted: self.persisted@,
            created_from_join: self.created_from_join,
            sync_state: self.sync_state,
            received_diffs: self.received_diffs@.map_values(|d: PerspectiveDiff| d@),
        }
    }
}

impl Clone for NeighbourhoodData {
    fn clone(&self) -> (r: Self)
        ensures
            r@ == self@,
    {
        NeighbourhoodData { link_language: self.link_language.clone() }
    }
}

impl Clone for Neighbourhood {
    fn clone(&self) -> (r: Self)
        ensures
            r@ == self@,
    {
        Neighbourhood { data: self.data.clone() }
    }
}

impl Clone for PerspectiveHandle {
    fn clone(&self) -> (r: Self)
        ensures
            r@ == self@,
    {
        PerspectiveHandle {
            uuid: self.uuid.clone(),
            name: match &self.name {
                Some(n) => Some(n.clone()),
                None => None,
            },
            neighbourhood: match &self.neighbourhood {
                Some(n) => Some(n.clone()),
                None => None,
            },
        }
    }
}

impl Clone for PerspectiveDiff {
    fn clone(&self) -> (r: Self)
        ensures
            r@ == self@,
    {
        let r = PerspectiveDiff {
            additions: self.additions.clone(),
            removals: self.removals.clone(),
        };
        proof {
            assert(r.additions.deep_view() =~= self.additions.deep_view());
            assert(r.removals.deep_view() =~= self.removals.deep_view());
        }
        r
    }
}

impl Clone for SyncState {
    fn clone(&self) -> (r: Self)
        ensures
            r == *self,
    {
        match self {
            SyncState::Unsynchronized => SyncState::Unsynchronized,
            SyncState::Synchronizing => SyncState::Synchronizing,
        }
    }
}

impl Clone for PerspectiveInstance {
    fn clone(&self) -> (r: Self)
        ensures
            r@ == self@,
    {
        let mut diffs: Vec<PerspectiveDiff> = Vec::new();
        let mut i: usize = 0;
        while i < self.received_diffs.len()
            invariant
                0 <= i <= self.received_diffs.len(),
                diffs@.len() == i,
                forall|k: int| 0 <= k < i ==> diffs@[k]@ == self.received_diffs@[k]@,
            decreases self.received_diffs.len() - i,
        {
            diffs.push(self.received_diffs[i].clone());
            i += 1;
        }
        let r = PerspectiveInstance {
            persisted: self.persisted.clone(),
            created_from_join: self.created_from_join,
            sync_state: self.sync_state.clone(),
            received_diffs: diffs,
        };
        proof {
            assert(r@.received_diffs =~= self@.received_diffs);
        }
        r
    }
}

/// The synchronization mode a handle implies: bound to a neighbourhood means
/// synchronizing, otherwise unsynchronized.
pub open spec fn sync_state_of(h: PerspectiveHandleV) -> SyncState {
    if h.neighbourhood is Some {
        SyncState::Synchronizing
    } else {
        SyncState::Unsynchronized
    }
}

/// The instance a freshly added handle starts as: no diffs received yet.
pub open spec fn fresh_instance(h: PerspectiveHandleV, created_from_join: bool)
    -> PerspectiveInstanceV {
    PerspectiveInstanceV {
        persisted: h,
        created_from_join,
        sync_state: sync_state_of(h),
        received_diffs: Seq::empty(),
    }
}

impl PerspectiveInstance {
    /// Wrap a handle as a live instance. `created_from_join` defaults to
    /// `false` when absent.
    pub fn new(handle: PerspectiveHandle, created_from_join: Option<bool>) -> (r: Self)
        ensures
            r@ == fresh_instance(handle@, created_from_join.unwrap_or(false)),
    {
        let cfj: bool = match created_from_join {
            Some(b) => b,
            None => false,
        };
        let sync_state = match &handle.neighbourhood {
            Some(_) => SyncState::Synchronizing,
            None => SyncState::Unsynchronized,
        };
        let r = PerspectiveInstance {
            persisted: handle,
            created_from_join: cfj,
            sync_state,
            received_diffs: Vec::new(),
        };
        proof {
            assert(r@.received_diffs =~= Seq::<PerspectiveDiffV>::empty());
        }
        r
    }

    /// Propagate a new handle into this instance. Attaching a neighbourhood
    /// moves the instance to `Synchronizing`; the reverse transition is out
    /// of scope, so without a neighbourhood the mode is kept as it was.
    /// Received diffs and the creation flag are untouched.
    pub fn update_from_handle(&mut self, handle: PerspectiveHandle)
        ensures
            final(self)@ == updated_instance(old(self)@, handle@),
    {
        if handle.neighbourhood.is_some() {
            self.sync_state = SyncState::Synchronizing;
        }
        self.persisted = handle;
    }

    /// Apply one diff delivered by this instance's synchronization channel:
    /// it is appended after every diff delivered before it, so per-instance
    /// delivery order is kept.
    pub fn diff_from_link_language(&mut self, diff: PerspectiveDiff)
        ensures
            final(self)@ == with_diff(old(self)@, diff@),
    {
        self.received_diffs.push(diff);
        proof {
            assert(self@.received_diffs =~= old(self)@.received_diffs.push(diff@));
        }
    }
}

/// The instance that results from propagating handle `h` into instance `p`:
/// the handle is replaced, attaching a neighbourhood switches the mode to
/// `Synchronizing`, and everything else is kept.
pub open spec fn updated_instance(p: PerspectiveInstanceV, h: PerspectiveHandleV)
    -> PerspectiveInstanceV {
    PerspectiveInstanceV {
        persisted: h,
        sync_state: if h.neighbourhood is Some {
            SyncState::Synchronizing
        } else {
            p.sync_state
        },
        ..p
    }
}

/// The instance that results from delivering diff `d` to instance `p`.
pub open spec fn with_diff(p: PerspectiveInstanceV, d: PerspectiveDiffV) -> PerspectiveInstanceV {
    PerspectiveInstanceV { received_diffs: p.received_diffs.push(d), ..p }
}

/// Whether some entry of `s` carries uuid `u`.
pub open spec fn has_uuid(s: Seq<PerspectiveInstanceV>, u: Seq<char>) -> bool {
    exists|i: int| 0 <= i < s.len() && (#[trigger] s[i]).persisted.uuid == u
}

/// The index of the entry of `s` carrying uuid `u`. Meaningful only where
/// `has_uuid(s, u)` holds; unique where the uuids of `s` are distinct.
pub open spec fn index_of_uuid(s: Seq<PerspectiveInstanceV>, u: Seq<char>) -> int {
    choose|i: int| 0 <= i < s.len() && (#[trigger] s[i]).persisted.uuid == u
}

/// The registry invariant: no two entries carry the same uuid.
pub open spec fn distinct_uuids(s: Seq<PerspectiveInstanceV>) -> bool {
    forall|i: int, j: int|
        0 <= i < s.len() && 0 <= j < s.len() && i != j ==> (#[trigger] s[i]).persisted.uuid != (
        #[trigger] s[j]).persisted.uuid
}

/// Whether instance `p` is bound to the synchronization channel at `addr`.
pub open spec fn instance_matches_address(p: PerspectiveInstanceV, addr: Seq<char>) -> bool {
    match p.persisted.neighbourhood {
        Some(nh) => nh.data.link_language == addr,
        None => false,
    }
}

/// The registry contents after fanning diff `d` out to every instance bound
/// to the channel at `addr`: matching instances receive the diff, all others
/// are untouched, and no entry moves.
pub open spec fn routed(s: Seq<PerspectiveInstanceV>, d: PerspectiveDiffV, addr: Seq<char>)
    -> Seq<PerspectiveInstanceV> {
    Seq::new(
        s.len(),
        |i: int|
            if instance_matches_address(s[i], addr) {
                with_diff(s[i], d)
            } else {
                s[i]
            },
    )
}

/// Where the uuids of `s` are distinct, the entry found at any index `j`
/// carrying uuid `u` is the entry `index_of_uuid` names.
pub proof fn lemma_index_of_uuid_unique(s: Seq<PerspectiveInstanceV>, u: Seq<char>, j: int)
    requires
        distinct_uuids(s),
        0 <= j < s.len(),
        s[j].persisted.uuid == u,
    ensures
        has_uuid(s, u),
        index_of_uuid(s, u) == j,
{
    assert(has_uuid(s, u));
    let i = index_of_uuid(s, u);
    assert(0 <= i < s.len() && s[i].persisted.uuid == u);
    if i != j {
        assert(s[i].persisted.uuid != s[j].persisted.uuid);
    }
}

/// Appending an instance whose uuid is not yet present keeps the uuids
/// distinct.
pub proof fn lemma_push_distinct(s: Seq<PerspectiveInstanceV>, f: PerspectiveInstanceV)
    requires
        distinct_uuids(s),
        !has_uuid(s, f.persisted.uuid),
    ensures
        distinct_uuids(s.push(f)),
{
    let s2 = s.push(f);
    assert forall|i: int, j: int|
        0 <= i < s2.len() && 0 <= j < s2.len() && i != j implies (
    #[trigger] s2[i]).persisted.uuid != (#[trigger] s2[j]).persisted.uuid by {
        if i < s.len() && j < s.len() {
            assert(s[i].persisted.uuid != s[j].persisted.uuid);
        } else if i == s.len() {
            assert(!(s[j].persisted.uuid == f.persisted.uuid));
        } else {
            assert(!(s[i].persisted.uuid == f.persisted.uuid));
        }
    }
}

/// Law: adding a handle under a fresh uuid and immediately looking that
/// uuid up finds exactly the added instance, whose persisted handle is the
/// handle that was added.
pub proof fn lemma_add_then_get(
    s: Seq<PerspectiveInstanceV>,
    h: PerspectiveHandleV,
    created_from_join: bool,
)
    requires
        distinct_uuids(s),
        !has_uuid(s, h.uuid),
    ensures
        ({
            let s2 = s.push(fresh_instance(h, created_from_join));
            &&& distinct_uuids(s2)
            &&& has_uuid(s2, h.uuid)
            &&& s2[index_of_uuid(s2, h.uuid)] == fresh_instance(h, created_from_join)
            &&& s2[index_of_uuid(s2, h.uuid)].persisted == h
        }),
{
    let f = fresh_instance(h, created_from_join);
    let s2 = s.push(f);
    lemma_push_distinct(s, f);
    lemma_index_of_uuid_unique(s2, h.uuid, s.len() as int);
}

/// Law: adding two handles with distinct fresh uuids grows the registry by
/// exactly two, and each is retrievable under its own uuid.
pub proof fn lemma_add_two_distinct(
    s: Seq<PerspectiveInstanceV>,
    h1: PerspectiveHandleV,
    c1: bool,
    h2: PerspectiveHandleV,
    c2: bool,
)
    requires
        distinct_uuids(s),
        !has_uuid(s, h1.uuid),
        !has_uuid(s, h2.uuid),
        h1.uuid != h2.uuid,
    ensures
        ({
            let s2 = s.push(fresh_instance(h1, c1)).push(fresh_instance(h2, c2));
            &&& s2.len() == s.len() + 2
            &&& distinct_uuids(s2)
            &&& has_uuid(s2, h1.uuid)
            &&& s2[index_of_uuid(s2, h1.uuid)].persisted == h1
            &&& has_uuid(s2, h2.uuid)
            &&& s2[index_of_uuid(s2, h2.uuid)].persisted == h2
        }),
{
    let f1 = fresh_instance(h1, c1);
    let f2 = fresh_instance(h2, c2);
    let s1 = s.push(f1);
    let s2 = s1.push(f2);
    lemma_push_distinct(s, f1);
    assert(!has_uuid(s1, h2.uuid)) by {
        if has_uuid(s1, h2.uuid) {
            let i = choose|i: int| 0 <= i < s1.len() && (#[trigger] s1[i]).persisted.uuid
                == h2.uuid;
            if i < s.len() {
                assert(s[i].persisted.uuid == h2.uuid);
            }
        }
    }
    lemma_push_distinct(s1, f2);
    lemma_index_of_uuid_unique(s2, h2.uuid, s1.len() as int);
    lemma_index_of_uuid_unique(s2, h1.uuid, s.len() as int);
}

/// Law: updating an existing entry with a handle carrying a new name makes
/// a subsequent lookup of that uuid return the new handle, the new name
/// included; no other entry moves and the count is unchanged.
pub proof fn lemma_update_then_get(s: Seq<PerspectiveInstanceV>, h: PerspectiveHandleV)
    requires
        distinct_uuids(s),
        has_uuid(s, h.uuid),
    ensures
        ({
            let idx = index_of_uuid(s, h.uuid);
            let s2 = s.update(idx, updated_instance(s[idx], h));
            &&& s2.len() == s.len()
            &&& distinct_uuids(s2)
            &&& has_uuid(s2, h.uuid)
            &&& s2[index_of_uuid(s2, h.uuid)].persisted == h
            &&& s2[index_of_uuid(s2, h.uuid)].persisted.name == h.name
        }),
{
    let idx = index_of_uuid(s, h.uuid);
    assert(0 <= idx < s.len() && s[idx].persisted.uuid == h.uuid);
    let s2 = s.update(idx, updated_instance(s[idx], h));
    assert forall|i: int, j: int|
        0 <= i < s2.len() && 0 <= j < s2.len() && i != j implies (
    #[trigger] s2[i]).persisted.uuid != (#[trigger] s2[j]).persisted.uuid by {
        assert(s2[i].persisted.uuid == s[i].persisted.uuid);
        assert(s2[j].persisted.uuid == s[j].persisted.uuid);
        assert(s[i].persisted.uuid != s[j].persisted.uuid);
    }
    lemma_index_of_uuid_unique(s2, h.uuid, idx);
}

/// Law: removing an existing uuid shrinks the registry by exactly one and
/// leaves no entry carrying that uuid behind.
pub proof fn lemma_remove_then_gone(s: Seq<PerspectiveInstanceV>, u: Seq<char>)
    requires
        distinct_uuids(s),
        has_uuid(s, u),
    ensures
        ({
            let s2 = s.remove(index_of_uuid(s, u));
            &&& s2.len() == s.len() - 1
            &&& distinct_uuids(s2)
            &&& !has_uuid(s2, u)
        }),
{
    let idx = index_of_uuid(s, u);
    assert(0 <= idx < s.len() && s[idx].persisted.uuid == u);
    let s2 = s.remove(idx);
    assert forall|i: int, j: int|
        0 <= i < s2.len() && 0 <= j < s2.len() && i != j implies (
    #[trigger] s2[i]).persisted.uuid != (#[trigger] s2[j]).persisted.uuid by {
        let i0 = if i < idx {
            i
        } else {
            i + 1
        };
        let j0 = if j < idx {
            j
        } else {
            j + 1
        };
        assert(s2[i] == s[i0]);
        assert(s2[j] == s[j0]);
        assert(s[i0].persisted.uuid != s[j0].persisted.uuid);
    }
    assert(!has_uuid(s2, u)) by {
        if has_uuid(s2, u) {
            let i = choose|i: int| 0 <= i < s2.len() && (#[trigger] s2[i]).persisted.uuid == u;
            let i0 = if i < idx {
                i
            } else {
                i + 1
            };
            assert(s2[i] == s[i0]);
            assert(i0 != idx);
            assert(s[i0].persisted.uuid != s[idx].persisted.uuid);
        }
    }
}

/// Law: a diff whose source address no registered perspective is bound to
/// changes nothing at all.
pub proof fn lemma_route_unknown_address_noop(
    s: Seq<PerspectiveInstanceV>,
    d: PerspectiveDiffV,
    addr: Seq<char>,
)
    requires
        forall|i: int| 0 <= i < s.len() ==> !instance_matches_address(#[trigger] s[i], addr),
    ensures
        routed(s, d, addr) == s,
{
    assert(routed(s, d, addr) =~= s);
}

/// The process-wide directory of perspectives, identity to instance. It owns
/// the canonical instance of every registered perspective; readers get
/// independent clones.
pub struct PerspectiveRegistry {
    instances: Vec<PerspectiveInstance>,
}

impl View for PerspectiveRegistry {
    type V = Seq<PerspectiveInstanceV>;

    closed spec fn view(&self) -> Seq<PerspectiveInstanceV> {
        self.instances@.map_values(|p: PerspectiveInstance| p@)
    }
}

impl PerspectiveRegistry {
    /// The registry invariant: registered uuids are unique.
    pub open spec fn wf(self) -> bool {
        distinct_uuids(self@)
    }

    /// An empty registry.
    pub fn new() -> (r: Self)
        ensures
            r@ == Seq::<PerspectiveInstanceV>::empty(),
            r.wf(),
    {
        let r = PerspectiveRegistry { instances: Vec::new() };
        proof {
            assert(r@ =~= Seq::<PerspectiveInstanceV>::empty());
        }
        r
    }

    /// The index of the instance registered under `uuid`, if any.
    fn find_index(&self, uuid: &String) -> (r: Option<usize>)
        ensures
            match r {
                Some(i) => 0 <= i < self@.len() && self@[i as int].persisted.uuid == uuid@,
                None => !has_uuid(self@, uuid@),
            },
    {
        let mut i: usize = 0;
        while i < self.instances.len()
            invariant
                0 <= i <= self.instances.len(),
                self@.len() == self.instances.len(),
                forall|k: int| 0 <= k < self@.len() ==> #[trigger] self@[k] == self.instances@[k]@,
                forall|k: int| 0 <= k < i ==> (#[trigger] self@[k]).persisted.uuid != uuid@,
            decreases self.instances.len() - i,
        {
            if self.instances[i].persisted.uuid == *uuid {
                return Some(i);
            }
            i += 1;
        }
        None
    }

    /// Register a new perspective. Fails with `AlreadyExists` — and changes
    /// nothing — exactly when the handle's uuid is already registered;
    /// otherwise the new instance is appended with no diffs received yet.
    pub fn add_perspective(
        &mut self,
        handle: PerspectiveHandle,
        created_from_join: Option<bool>,
    ) -> (r: Result<(), CoreError>)
        requires
            old(self).wf(),
        ensures
            final(self).wf(),
            match r {
                Ok(_) => !has_uuid(old(self)@, handle@.uuid) && final(self)@ == old(self)@.push(
                    fresh_instance(handle@, created_from_join.unwrap_or(false)),
                ),
                Err(e) => has_uuid(old(self)@, handle@.uuid) && final(self)@ == old(self)@
                    && match e {
                    CoreError::AlreadyExists { uuid } => uuid@ == handle@.uuid,
                    _ => false,
                },
            },
    {
        if self.find_index(&handle.uuid).is_some() {
            return Err(CoreError::AlreadyExists { uuid: handle.uuid.clone() });
        }
        let ghost s0 = self@;
        let inst = PerspectiveInstance::new(handle, created_from_join);
        let ghost f = inst@;
        self.instances.push(inst);
        proof {
            assert(self@ =~= s0.push(f));
            lemma_push_distinct(s0, f);
        }
        Ok(())
    }

    /// A snapshot of the instance registered under `uuid`, or `None` when
    /// the uuid is unknown.
    pub fn get_perspective(&self, uuid: &str) -> (r: Option<PerspectiveInstance>)
        requires
            self.wf(),
        ensures
            match r {
                Some(p) => has_uuid(self@, uuid@) && p@ == self@[index_of_uuid(self@, uuid@)],
                None => !has_uuid(self@, uuid@),
            },
    {
        let u: String = uuid.to_owned();
        match self.find_index(&u) {
            Some(i) => {
                proof {
                    lemma_index_of_uuid_unique(self@, uuid@, i as int);
                }
                Some(self.instances[i].clone())
            },
            None => None,
        }
    }

    /// Snapshots of all registered instances, in registration order.
    pub fn all_perspectives(&self) -> (r: Vec<PerspectiveInstance>)
        ensures
            r@.map_values(|p: PerspectiveInstance| p@) == self@,
    {
        let mut out: Vec<PerspectiveInstance> = Vec::new();
        let mut i: usize = 0;
        while i < self.instances.len()
            invariant
                0 <= i <= self.instances.len(),
                self@.len() == self.instances.len(),
                forall|k: int| 0 <= k < self@.len() ==> #[trigger] self@[k] == self.instances@[k]@,
                out@.len() == i,
                forall|k: int| 0 <= k < i ==> (#[trigger] out@[k])@ == self@[k],
            decreases self.instances.len() - i,
        {
            out.push(self.instances[i].clone());
            i += 1;
        }
        proof {
            assert(out@.map_values(|p: PerspectiveInstance| p@) =~= self@);
        }
        out
    }

    /// Propagate a new handle into the instance registered under its uuid.
    /// Fails with `NotFound` — and changes nothing — exactly when the uuid
    /// is unknown; otherwise only that instance changes, as
    /// [`updated_instance`] says.
    pub fn update_perspective(&mut self, handle: &PerspectiveHandle) -> (r: Result<
        (),
        CoreError,
    >)
        requires
            old(self).wf(),
        ensures
            final(self).wf(),
            match r {
                Ok(_) => has_uuid(old(self)@, handle@.uuid) && final(self)@ == old(self)@.update(
                    index_of_uuid(old(self)@, handle@.uuid),
                    updated_instance(old(self)@[index_of_uuid(old(self)@, handle@.uuid)], handle@),
                ),
                Err(e) => !has_uuid(old(self)@, handle@.uuid) && final(self)@ == old(self)@
                    && match e {
                    CoreError::NotFound { uuid } => uuid@ == handle@.uuid,
                    _ => false,
                },
            },
    {
        let ghost s0 = self@;
        match self.find_index(&handle.uuid) {
            None => Err(CoreError::NotFound { uuid: handle.uuid.clone() }),
            Some(i) => {
                proof {
                    lemma_index_of_uuid_unique(s0, handle@.uuid, i as int);
                }
                self.instances[i].update_from_handle(handle.clone());
                proof {
                    let s1 = self@;
                    let upd = updated_instance(s0[i as int], handle@);
                    assert(s1 =~= s0.update(i as int, upd));
                    assert forall|a: int, b: int|
                        0 <= a < s1.len() && 0 <= b < s1.len() && a != b implies (
                    #[trigger] s1[a]).persisted.uuid != (#[trigger] s1[b]).persisted.uuid by {
                        assert(s1[a].persisted.uuid == s0[a].persisted.uuid);
                        assert(s1[b].persisted.uuid == s0[b].persisted.uuid);
                        assert(s0[a].persisted.uuid != s0[b].persisted.uuid);
                    }
                }
                Ok(())
            },
        }
    }

    /// Evict the instance registered under `uuid` and hand it to the caller
    /// for teardown; later entries keep their relative order. Removing an
    /// unknown uuid returns `None` and changes nothing.
    pub fn remove_perspective(&mut self, uuid: &str) -> (r: Option<PerspectiveInstance>)
        requires
            old(self).wf(),
        ensures
            final(self).wf(),
            match r {
                Some(p) => has_uuid(old(self)@, uuid@) && p@ == old(self)@[index_of_uuid(
                    old(self)@,
                    uuid@,
                )] && final(self)@ == old(self)@.remove(index_of_uuid(old(self)@, uuid@)),
                None => !has_uuid(old(self)@, uuid@) && final(self)@ == old(self)@,
            },
    {
        let u: String = uuid.to_owned();
        let ghost s0 = self@;
        match self.find_index(&u) {
            None => None,
            Some(i) => {
                proof {
                    lemma_index_of_uuid_unique(s0, uuid@, i as int);
                }
                let inst = self.instances.remove(i);
                proof {
                    let s1 = self@;
                    assert(s1 =~= s0.remove(i as int));
                    assert forall|a: int, b: int|
                        0 <= a < s1.len() && 0 <= b < s1.len() && a != b implies (
                    #[trigger] s1[a]).persisted.uuid != (#[trigger] s1[b]).persisted.uuid by {
                        let a0 = if a < i as int {
                            a
                        } else {
                            a + 1
                        };
                        let b0 = if b < i as int {
                            b
                        } else {
                            b + 1
                        };
                        assert(s1[a] == s0[a0]);
                        assert(s1[b] == s0[b0]);
                        assert(s0[a0].persisted.uuid != s0[b0].persisted.uuid);
                    }
                }
                Some(inst)
            },
        }
    }

    /// Populate an empty registry from every handle the durable store holds,
    /// as at process startup. The store keys handles by uuid, so the given
    /// handles carry distinct uuids; calling this while perspectives are
    /// already registered is not supported, hence the emptiness
    /// precondition.
    pub fn initialize_from_db(&mut self, handles: Vec<PerspectiveHandle>)
        requires
            old(self)@.len() == 0,
            forall|i: int, j: int|
                0 <= i < handles@.len() && 0 <= j < handles@.len() && i != j ==> (
                #[trigger] handles@[i])@.uuid != (#[trigger] handles@[j])@.uuid,
        ensures
            final(self)@ == handles@.map_values(|h: PerspectiveHandle| fresh_instance(h@, false)),
            final(self).wf(),
    {
        let ghost target = handles@.map_values(|h: PerspectiveHandle| fresh_instance(h@, false));
        let mut i: usize = 0;
        while i < handles.len()
            invariant
                0 <= i <= handles.len(),
                target == handles@.map_values(|h: PerspectiveHandle| fresh_instance(h@, false)),
                target.len() == handles@.len(),
                forall|k: int| 0 <= k < handles@.len() ==> #[trigger] target[k] == fresh_instance(
                    handles@[k]@,
                    false,
                ),
                self@.len() == i,
                forall|k: int| 0 <= k < i ==> #[trigger] self@[k] == target[k],
            decreases handles.len() - i,
        {
            let ghost s0 = self@;
            let h = handles[i].clone();
            let inst = PerspectiveInstance::new(h, None);
            let ghost f = inst@;
            self.instances.push(inst);
            proof {
                assert(self@ =~= s0.push(f));
            }
            i += 1;
        }
        proof {
            assert(self@ =~= target);
            assert forall|a: int, b: int|
                0 <= a < self@.len() && 0 <= b < self@.len() && a != b implies (
            #[trigger] self@[a]).persisted.uuid != (#[trigger] self@[b]).persisted.uuid by {
                assert(self@[a] == fresh_instance(handles@[a]@, false));
                assert(self@[b] == fresh_instance(handles@[b]@, false));
                assert(handles@[a]@.uuid != handles@[b]@.uuid);
            }
        }
    }

    /// Fan a diff from the synchronization transport out to every instance
    /// bound to the channel it arrived on. An address no perspective is
    /// bound to makes this a no-op. Each matching instance receives the diff
    /// after every diff delivered to it before.
    pub fn handle_perspective_diff_from_link_language(
        &mut self,
        diff: PerspectiveDiff,
        language_address: String,
    )
        requires
            old(self).wf(),
        ensures
            final(self)@ == routed(old(self)@, diff@, language_address@),
            final(self).wf(),
    {
        let ghost s0 = self@;
        let ghost target = routed(s0, diff@, language_address@);
        let mut i: usize = 0;
        while i < self.instances.len()
            invariant
                0 <= i <= self.instances.len(),
                self.instances.len() == s0.len(),
                self@.len() == s0.len(),
                target == routed(s0, diff@, language_address@),
                forall|k: int| 0 <= k < i ==> #[trigger] self@[k] == target[k],
                forall|k: int| i <= k < s0.len() ==> #[trigger] self@[k] == s0[k],
            decreases self.instances.len() - i,
        {
            let ghost sb = self@;
            let matches_addr: bool = match &self.instances[i].persisted.neighbourhood {
                Some(nh) => nh.data.link_language == language_address,
                None => false,
            };
            if matches_addr {
                self.instances[i].diff_from_link_language(diff.clone());
                proof {
                    assert(self@ =~= sb.update(i as int, with_diff(sb[i as int], diff@)));
                }
            }
            i += 1;
        }
        proof {
            assert(self@ =~= target);
            assert forall|a: int, b: int|
                0 <= a < self@.len() && 0 <= b < self@.len() && a != b implies (
            #[trigger] self@[a]).persisted.uuid != (#[trigger] self@[b]).persisted.uuid by {
                assert(self@[a].persisted.uuid == s0[a].persisted.uuid);
                assert(self@[b].persisted.uuid == s0[b].persisted.uuid);
                assert(s0[a].persisted.uuid != s0[b].persisted.uuid);
            }
        }
    }
}

} // verus!
