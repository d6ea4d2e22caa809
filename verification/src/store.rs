//! The key store: session keys by their id, each with the session that was
//! attached to it, if any.
//!
//! Every id that is held has a key. A key that is stored carries the id it is
//! stored under as its label, and keeps doing so when the id is renamed.
//!
//! A session may come for an id that is not held. It is then kept for that
//! id, beside the keys: the id does not come to be held by it, is not listed
//! and has nothing to export.
use crate::error::{ErrorKind, Failure, SessionError};
use crate::key_material::{clone_key, jwk_label, key_view, label_key, KeyView};
use crate::text::{join2, join3, opt_view};
use ssi_jwk::JWK;
use vstd::prelude::*;

verus! {

/// The proof of authorization that a key received once its signed message was
/// accepted. The store reads only the key id that the proof names.
pub struct Session {
    /// The id of the key that the proof was issued to, where it names one.
    pub key_id: Option<String>,
    /// The proof itself, as the issuer wrote it.
    pub delegation: String,
}

/// The model of a session.
pub struct SessionView {
    pub key_id: Option<Seq<char>>,
    pub delegation: Seq<char>,
}

impl View for Session {
    type V = SessionView;

    open spec fn view(&self) -> SessionView {
        SessionView {
            key_id: match self.key_id {
                Some(id) => Some(id@),
                None => None,
            },
            delegation: self.delegation@,
        }
    }
}

/// What the store holds under one id.
pub struct SessionInfo {
    /// The key, labelled with the id.
    pub key: JWK,
    /// The session attached to the key, if any.
    pub session: Option<Session>,
}

/// The model of what the store holds under one id.
pub struct SessionInfoView {
    pub key: KeyView,
    pub session: Option<SessionView>,
}

impl View for SessionInfo {
    type V = SessionInfoView;

    open spec fn view(&self) -> SessionInfoView {
        SessionInfoView {
            key: key_view(self.key),
            session: match self.session {
                Some(s) => Some(s@),
                None => None,
            },
        }
    }
}

/// The model of a store: what is held under each id.
pub type KeyMap = Map<Seq<char>, SessionInfoView>;

/// The sessions that are kept for ids that are not held, by id.
pub type PendingMap = Map<Seq<char>, SessionView>;

/// The id that stands for an absent one.
pub open spec fn default_key_id() -> Seq<char> {
    "default"@
}

/// The id that an operation works on: the one given, or the default.
pub open spec fn resolve_key_id(key_id: Option<Seq<char>>) -> Seq<char> {
    match key_id {
        Some(id) => id,
        None => default_key_id(),
    }
}

/// The failure of an operation that would store a second key under `id`.
pub open spec fn duplicate_key(id: Seq<char>) -> Failure {
    Failure { kind: ErrorKind::DuplicateKey, detail: "key already exists: "@ + id }
}

/// The failure of an operation on an id that the store does not hold.
pub open spec fn key_not_found(id: Seq<char>) -> Failure {
    Failure { kind: ErrorKind::KeyNotFound, detail: "key not found: "@ + id }
}

/// The failure of a rename whose old id is not held.
pub open spec fn rename_source_missing(id: Seq<char>) -> Failure {
    Failure { kind: ErrorKind::KeyNotFound, detail: "Key "@ + id + " does not exist."@ }
}

/// The failure of a rename whose new id is already held.
pub open spec fn rename_target_taken(id: Seq<char>) -> Failure {
    Failure { kind: ErrorKind::DuplicateKey, detail: "Key "@ + id + " already exists."@ }
}

/// The failure of an attachment that names no key id.
pub open spec fn missing_key_id() -> Failure {
    Failure { kind: ErrorKind::MissingKeyId, detail: "No key_id provided"@ }
}

/// A key just stored under `id`: it is labelled with the id, and no session
/// is attached to it yet.
pub open spec fn fresh_info(key: KeyView, id: Seq<char>) -> SessionInfoView {
    SessionInfoView { key: key.labelled(id), session: None }
}

/// What was held under another id, once it is held under `id`: the key is
/// labelled with the id, and the session is what it was.
pub open spec fn renamed_info(info: SessionInfoView, id: Seq<char>) -> SessionInfoView {
    SessionInfoView { key: info.key.labelled(id), session: info.session }
}

/// Whether every key that the store holds is labelled with the id it is held
/// under.
pub open spec fn labels_synchronized(keys: KeyMap) -> bool {
    forall|id: Seq<char>|
        keys.dom().contains(id) ==> (#[trigger] keys[id]).key.label == Some(id)
}

/// What `import` returns: the id under which the key now stands, or the
/// failure where the id is taken and may not be overridden.
pub open spec fn import_result(keys: KeyMap, key_id: Option<Seq<char>>, allow_override: bool) -> Result<
    Seq<char>,
    Failure,
> {
    let id = resolve_key_id(key_id);
    if keys.dom().contains(id) && !allow_override {
        Err(duplicate_key(id))
    } else {
        Ok(id)
    }
}

/// The store after `import`: unchanged where it failed, else with the key,
/// labelled with the id, alone under the id.
pub open spec fn import_state(
    keys: KeyMap,
    key: KeyView,
    key_id: Option<Seq<char>>,
    allow_override: bool,
) -> KeyMap {
    let id = resolve_key_id(key_id);
    if keys.dom().contains(id) && !allow_override {
        keys
    } else {
        keys.insert(id, fresh_info(key, id))
    }
}

/// What `create` returns once a fresh key is at hand: as `import` that may
/// not override.
pub open spec fn create_result(keys: KeyMap, key_id: Option<Seq<char>>) -> Result<Seq<char>, Failure> {
    import_result(keys, key_id, false)
}

/// The store after `create` with the fresh key `key`.
pub open spec fn create_state(keys: KeyMap, key: KeyView, key_id: Option<Seq<char>>) -> KeyMap {
    import_state(keys, key, key_id, false)
}

/// What `export` returns: the key held under the id, or why there is none.
pub open spec fn export_result(keys: KeyMap, key_id: Option<Seq<char>>) -> Result<KeyView, Failure> {
    let id = resolve_key_id(key_id);
    if !keys.dom().contains(id) {
        Err(key_not_found(id))
    } else {
        Ok(keys[id].key)
    }
}

/// What `rename` returns.
pub open spec fn rename_result(keys: KeyMap, old_id: Seq<char>, new_id: Seq<char>) -> Result<(), Failure> {
    if !keys.dom().contains(old_id) {
        Err(rename_source_missing(old_id))
    } else if keys.dom().contains(new_id) {
        Err(rename_target_taken(new_id))
    } else {
        Ok(())
    }
}

/// The store after `rename`: unchanged where it failed, else with what was
/// held under the old id, session included, under the new one, and the key
/// labelled with the new id.
pub open spec fn rename_state(keys: KeyMap, old_id: Seq<char>, new_id: Seq<char>) -> KeyMap {
    if keys.dom().contains(old_id) && !keys.dom().contains(new_id) {
        keys.remove(old_id).insert(new_id, renamed_info(keys[old_id], new_id))
    } else {
        keys
    }
}

/// The id that an attachment goes to: the one given, else the one that the
/// session names.
pub open spec fn attach_target(key_id: Option<Seq<char>>, session: SessionView) -> Option<Seq<char>> {
    match key_id {
        Some(id) => Some(id),
        None => session.key_id,
    }
}

/// What `attach_session` returns: the failure where neither the caller nor
/// the session names an id, and nothing else.
pub open spec fn attach_result(key_id: Option<Seq<char>>, session: SessionView) -> Result<(), Failure> {
    match attach_target(key_id, session) {
        None => Err(missing_key_id()),
        Some(_) => Ok(()),
    }
}

/// What is held after `attach_session`: where the target id is held, the
/// session stands under it, in place of an earlier one, beside the key that
/// is held there; else what is held is what was held.
pub open spec fn attach_state(keys: KeyMap, key_id: Option<Seq<char>>, session: SessionView) -> KeyMap {
    match attach_target(key_id, session) {
        Some(id) => if keys.dom().contains(id) {
            keys.insert(id, SessionInfoView { key: keys[id].key, session: Some(session) })
        } else {
            keys
        },
        None => keys,
    }
}

/// The sessions kept for ids that are not held, after `attach_session`: where
/// the target id is not held, the session is kept for it, in place of one
/// kept for it before.
pub open spec fn attach_pending(
    keys: KeyMap,
    pending: PendingMap,
    key_id: Option<Seq<char>>,
    session: SessionView,
) -> PendingMap {
    match attach_target(key_id, session) {
        Some(id) => if keys.dom().contains(id) {
            pending
        } else {
            pending.insert(id, session)
        },
        None => pending,
    }
}

/// The sessions kept for ids that are not held, after `import`: a key that is
/// stored starts without a session, so what was kept for its id is dropped.
pub open spec fn import_pending(
    keys: KeyMap,
    pending: PendingMap,
    key_id: Option<Seq<char>>,
    allow_override: bool,
) -> PendingMap {
    if import_result(keys, key_id, allow_override) is Ok {
        pending.remove(resolve_key_id(key_id))
    } else {
        pending
    }
}

/// The sessions kept for ids that are not held, after `rename`: the new id is
/// then held with what the old one had, so what was kept for the new id is
/// dropped.
pub open spec fn rename_pending(keys: KeyMap, pending: PendingMap, old_id: Seq<char>, new_id: Seq<char>) -> PendingMap {
    if rename_result(keys, old_id, new_id) is Ok {
        pending.remove(new_id)
    } else {
        pending
    }
}

/// Whether the sessions that are kept beside the keys are for ids that are
/// not held.
pub open spec fn pending_apart(keys: KeyMap, pending: PendingMap) -> bool {
    forall|id: Seq<char>| !(keys.dom().contains(id) && #[trigger] pending.dom().contains(id))
}

/// The characters of a result that carries an id.
pub open spec fn id_result_view(r: Result<String, SessionError>) -> Result<Seq<char>, Failure> {
    match r {
        Ok(id) => Ok(id@),
        Err(e) => Err(e@),
    }
}

/// The model of a result that carries a key.
pub open spec fn key_result_view(r: Result<JWK, SessionError>) -> Result<KeyView, Failure> {
    match r {
        Ok(key) => Ok(key_view(key)),
        Err(e) => Err(e@),
    }
}

/// The model of a result that carries nothing.
pub open spec fn unit_result_view(r: Result<(), SessionError>) -> Result<(), Failure> {
    match r {
        Ok(()) => Ok(()),
        Err(e) => Err(e@),
    }
}

/// The ids of a list: no id occurs twice in it.
pub open spec fn no_id_twice(ids: Seq<String>) -> bool {
    forall|i: int, j: int|
        0 <= i < ids.len() && 0 <= j < ids.len() && i != j ==> #[trigger] ids[i]@ != #[trigger] ids[j]@
}

/// Whether `id` occurs in the list.
pub open spec fn lists_id(ids: Seq<String>, id: Seq<char>) -> bool {
    exists|i: int| 0 <= i < ids.len() && #[trigger] ids[i]@ == id
}

struct Entry {
    key_id: String,
    info: SessionInfo,
}

struct Waiting {
    key_id: String,
    session: Session,
}

/// Named session keys. No id is held twice.
pub struct KeyStore {
    entries: Vec<Entry>,
    waiting: Vec<Waiting>,
}

spec fn waiting_map(waiting: Seq<Waiting>) -> PendingMap
    decreases waiting.len(),
{
    if waiting.len() == 0 {
        Map::empty()
    } else {
        waiting_map(waiting.drop_last()).insert(waiting.last().key_id@, waiting.last().session@)
    }
}

spec fn waits_for(waiting: Seq<Waiting>, id: Seq<char>) -> bool {
    exists|i: int| 0 <= i < waiting.len() && #[trigger] waiting[i].key_id@ == id
}

proof fn lemma_waiting_dom(waiting: Seq<Waiting>, id: Seq<char>)
    ensures
        waiting_map(waiting).dom().contains(id) <==> waits_for(waiting, id),
    decreases waiting.len(),
{
    if waiting.len() > 0 {
        let earlier = waiting.drop_last();
        lemma_waiting_dom(earlier, id);
        if waits_for(earlier, id) {
            let i = choose|i: int| 0 <= i < earlier.len() && #[trigger] earlier[i].key_id@ == id;
            assert(waiting[i].key_id@ == id);
        }
        if waits_for(waiting, id) {
            let i = choose|i: int| 0 <= i < waiting.len() && #[trigger] waiting[i].key_id@ == id;
            if i < earlier.len() {
                assert(earlier[i].key_id@ == id);
            }
        }
        if waiting.last().key_id@ == id {
            assert(waiting[waiting.len() - 1].key_id@ == id);
        }
    }
}

proof fn lemma_waiting_last(waiting: Seq<Waiting>, i: int)
    requires
        0 <= i < waiting.len(),
        forall|j: int| i < j < waiting.len() ==> #[trigger] waiting[j].key_id@ != waiting[i].key_id@,
    ensures
        waiting_map(waiting).dom().contains(waiting[i].key_id@),
        waiting_map(waiting)[waiting[i].key_id@] == waiting[i].session@,
    decreases waiting.len(),
{
    if i < waiting.len() - 1 {
        let earlier = waiting.drop_last();
        assert(waiting[waiting.len() - 1].key_id@ != waiting[i].key_id@);
        assert(earlier[i] == waiting[i]);
        assert forall|j: int| i < j < earlier.len() implies #[trigger] earlier[j].key_id@ != earlier[i].key_id@ by {
            assert(earlier[j] == waiting[j]);
        }
        lemma_waiting_last(earlier, i);
    }
}

proof fn lemma_waiting_removed(waiting: Seq<Waiting>, i: int)
    requires
        0 <= i < waiting.len(),
    ensures
        waiting_map(waiting.remove(i)).remove(waiting[i].key_id@) == waiting_map(waiting).remove(
            waiting[i].key_id@,
        ),
    decreases waiting.len(),
{
    let id = waiting[i].key_id@;
    let earlier = waiting.drop_last();
    if i == waiting.len() - 1 {
        assert(waiting.remove(i) =~= earlier);
        assert(waiting_map(earlier).remove(id) =~= waiting_map(waiting).remove(id));
    } else {
        let shorter = waiting.remove(i);
        assert(shorter.drop_last() =~= earlier.remove(i));
        assert(shorter.last() == waiting.last());
        assert(earlier[i] == waiting[i]);
        lemma_waiting_removed(earlier, i);
        let a = waiting_map(earlier.remove(i));
        let b = waiting_map(earlier);
        let last = waiting.last();
        assert(waiting_map(shorter) == a.insert(last.key_id@, last.session@));
        assert(waiting_map(waiting) == b.insert(last.key_id@, last.session@));
        let left = waiting_map(shorter).remove(id);
        let right = waiting_map(waiting).remove(id);
        assert forall|k: Seq<char>| left.dom().contains(k) <==> right.dom().contains(k) by {
            if k != id && k != last.key_id@ {
                assert(a.remove(id).dom().contains(k) <==> a.dom().contains(k));
                assert(b.remove(id).dom().contains(k) <==> b.dom().contains(k));
            }
        }
        assert forall|k: Seq<char>| left.dom().contains(k) implies left[k] == right[k] by {
            if k != last.key_id@ {
                assert(a.remove(id).dom().contains(k));
                assert(a.remove(id)[k] == a[k]);
                assert(b.remove(id)[k] == b[k]);
            }
        }
        assert(waiting_map(shorter).remove(id) =~= waiting_map(waiting).remove(id));
    }
}

proof fn lemma_labels(entries: Seq<Entry>)
    requires
        distinct_ids(entries),
        all_labelled(entries),
    ensures
        labels_synchronized(entries_map(entries)),
{
    assert forall|id: Seq<char>| entries_map(entries).dom().contains(id) implies (#[trigger] entries_map(
        entries,
    )[id]).key.label == Some(id) by {
        let i = index_of(entries, id);
        lemma_entry_in_map(entries, i);
        assert(labelled_with_id(entries[i]));
    }
}

spec fn has_id(entries: Seq<Entry>, id: Seq<char>) -> bool {
    exists|i: int| 0 <= i < entries.len() && #[trigger] entries[i].key_id@ == id
}

spec fn index_of(entries: Seq<Entry>, id: Seq<char>) -> int {
    choose|i: int| 0 <= i < entries.len() && #[trigger] entries[i].key_id@ == id
}

spec fn distinct_ids(entries: Seq<Entry>) -> bool {
    forall|i: int, j: int|
        0 <= i < entries.len() && 0 <= j < entries.len() && i != j
            ==> #[trigger] entries[i].key_id@ != #[trigger] entries[j].key_id@
}

spec fn labelled_with_id(entry: Entry) -> bool {
    jwk_label(entry.info.key) == Some(entry.key_id@)
}

spec fn all_labelled(entries: Seq<Entry>) -> bool {
    forall|i: int| 0 <= i < entries.len() ==> labelled_with_id(#[trigger] entries[i])
}

spec fn entries_map(entries: Seq<Entry>) -> KeyMap {
    Map::new(|id: Seq<char>| has_id(entries, id), |id: Seq<char>| entries[index_of(entries, id)].info@)
}

proof fn lemma_entry_in_map(entries: Seq<Entry>, i: int)
    requires
        distinct_ids(entries),
        0 <= i < entries.len(),
    ensures
        entries_map(entries).dom().contains(entries[i].key_id@),
        entries_map(entries)[entries[i].key_id@] == entries[i].info@,
{
    let id = entries[i].key_id@;
    assert(has_id(entries, id));
    let j = index_of(entries, id);
    assert(0 <= j < entries.len() && entries[j].key_id@ == id);
    assert(j == i);
}

impl KeyStore {
    #[verifier::type_invariant]
    spec fn well_formed(self) -> bool {
        distinct_ids(self.entries@) && all_labelled(self.entries@)
    }

    /// What the store holds under each id.
    pub closed spec fn view(&self) -> KeyMap {
        entries_map(self.entries@)
    }

    /// The sessions that the store keeps for ids that it does not hold.
    pub closed spec fn pending(&self) -> PendingMap {
        waiting_map(self.waiting@)
    }

    /// A store that holds nothing.
    pub fn empty() -> (store: KeyStore)
        ensures
            store@ == Map::<Seq<char>, SessionInfoView>::empty(),
            store.pending() == Map::<Seq<char>, SessionView>::empty(),
    {
        let store = KeyStore { entries: Vec::new(), waiting: Vec::new() };
        assert(store@ =~= Map::<Seq<char>, SessionInfoView>::empty());
        store
    }

    /// Tells that every key that is held is labelled with its id; it does
    /// nothing when it runs.
    pub fn labels_hold(&self)
        ensures
            labels_synchronized(self@),
    {
        proof {
            use_type_invariant(self);
            lemma_labels(self.entries@);
        }
    }

    /// Drops what is kept for the id.
    fn drop_waiting(&mut self, key_id: &String)
        ensures
            final(self)@ == old(self)@,
            final(self).pending() == old(self).pending().remove(key_id@),
    {
        proof {
            use_type_invariant(&*self);
        }
        let ghost first = self.waiting@;
        let mut waiting: Vec<Waiting> = Vec::new();
        std::mem::swap(&mut waiting, &mut self.waiting);
        let mut i: usize = 0;
        while i < waiting.len()
            invariant
                i <= waiting@.len(),
                waiting_map(waiting@).remove(key_id@) == waiting_map(first).remove(key_id@),
                forall|j: int| 0 <= j < i ==> #[trigger] waiting@[j].key_id@ != key_id@,
            decreases waiting@.len() - i,
        {
            if waiting[i].key_id == *key_id {
                proof {
                    lemma_waiting_removed(waiting@, i as int);
                    assert forall|j: int| 0 <= j < i implies #[trigger] waiting@.remove(i as int)[j].key_id@
                        != key_id@ by {
                        assert(waiting@.remove(i as int)[j] == waiting@[j]);
                    }
                }
                let _ = waiting.remove(i);
            } else {
                i += 1;
            }
        }
        proof {
            lemma_waiting_dom(waiting@, key_id@);
            assert(!waits_for(waiting@, key_id@));
            assert(waiting_map(waiting@) =~= waiting_map(waiting@).remove(key_id@));
        }
        self.waiting = waiting;
    }

    /// Keeps the session for the id, in place of one kept for it before.
    fn keep_waiting(&mut self, key_id: String, session: Session)
        ensures
            final(self)@ == old(self)@,
            final(self).pending() == old(self).pending().insert(key_id@, session@),
    {
        self.drop_waiting(&key_id);
        proof {
            use_type_invariant(&*self);
        }
        let ghost before = self.waiting@;
        let mut waiting: Vec<Waiting> = Vec::new();
        std::mem::swap(&mut waiting, &mut self.waiting);
        let entry = Waiting { key_id, session };
        waiting.push(entry);
        proof {
            assert(waiting@.drop_last() =~= before);
            assert(waiting_map(waiting@) =~= old(self).pending().insert(entry.key_id@, entry.session@));
        }
        self.waiting = waiting;
    }

    /// The session that is kept for an id that is not held, if there is one.
    pub fn pending_session(&self, key_id: &String) -> (session: Option<&Session>)
        ensures
            match session {
                Some(kept) => self.pending().dom().contains(key_id@) && kept@ == self.pending()[key_id@],
                None => !self.pending().dom().contains(key_id@),
            },
    {
        let mut i: usize = self.waiting.len();
        while i > 0
            invariant
                i <= self.waiting@.len(),
                forall|j: int| i <= j < self.waiting@.len() ==> #[trigger] self.waiting@[j].key_id@ != key_id@,
            decreases i,
        {
            i -= 1;
            if self.waiting[i].key_id == *key_id {
                proof {
                    lemma_waiting_last(self.waiting@, i as int);
                }
                return Some(&self.waiting[i].session);
            }
        }
        proof {
            lemma_waiting_dom(self.waiting@, key_id@);
        }
        None
    }

    fn position(&self, key_id: &String) -> (at: Option<usize>)
        ensures
            match at {
                Some(i) => i < self.entries@.len() && self.entries@[i as int].key_id@ == key_id@,
                None => !has_id(self.entries@, key_id@),
            },
    {
        let mut i: usize = 0;
        while i < self.entries.len()
            invariant
                i <= self.entries@.len(),
                forall|j: int| 0 <= j < i ==> self.entries@[j].key_id@ != key_id@,
            decreases self.entries@.len() - i,
        {
            if self.entries[i].key_id == *key_id {
                return Some(i);
            }
            i += 1;
        }
        None
    }

    /// Whether anything is held under the id.
    pub fn contains_key(&self, key_id: &String) -> (held: bool)
        ensures
            held == self@.dom().contains(key_id@),
    {
        self.position(key_id).is_some()
    }

    /// What is held under the id, if anything.
    pub fn get(&self, key_id: &String) -> (info: Option<&SessionInfo>)
        ensures
            match info {
                Some(held) => self@.dom().contains(key_id@) && held@ == self@[key_id@] && jwk_label(held.key)
                    == Some(key_id@),
                None => !self@.dom().contains(key_id@),
            },
    {
        proof {
            use_type_invariant(self);
        }
        match self.position(key_id) {
            Some(i) => {
                proof {
                    lemma_entry_in_map(self.entries@, i as int);
                }
                Some(&self.entries[i].info)
            },
            None => None,
        }
    }

    /// Puts `info` under `key_id`, in place of what was held there.
    fn put(&mut self, key_id: String, info: SessionInfo)
        requires
            jwk_label(info.key) == Some(key_id@),
        ensures
            final(self)@ == old(self)@.insert(key_id@, info@),
            final(self).pending() == old(self).pending(),
    {
        proof {
            use_type_invariant(&*self);
        }
        let at = self.position(&key_id);
        let ghost before = self.entries@;
        let mut entries: Vec<Entry> = Vec::new();
        std::mem::swap(&mut entries, &mut self.entries);
        let entry = Entry { key_id, info };
        match at {
            Some(i) => {
                entries.set(i, entry);
            },
            None => {
                entries.push(entry);
            },
        }
        proof {
            lemma_put(before, entries@, entry);
        }
        self.entries = entries;
    }

    /// Takes out what is held under `key_id`.
    fn take(&mut self, key_id: &String) -> (info: Option<SessionInfo>)
        ensures
            final(self)@ == old(self)@.remove(key_id@),
            final(self).pending() == old(self).pending(),
            match info {
                Some(held) => old(self)@.dom().contains(key_id@) && held@ == old(self)@[key_id@] && jwk_label(
                    held.key,
                ) == Some(key_id@),
                None => !old(self)@.dom().contains(key_id@),
            },
    {
        proof {
            use_type_invariant(&*self);
        }
        let at = self.position(key_id);
        match at {
            Some(i) => {
                let ghost before = self.entries@;
                let mut entries: Vec<Entry> = Vec::new();
                std::mem::swap(&mut entries, &mut self.entries);
                let entry = entries.remove(i);
                proof {
                    lemma_take(before, entries@, i as int);
                }
                self.entries = entries;
                Some(entry.info)
            },
            None => {
                assert(self@ =~= self@.remove(key_id@));
                None
            },
        }
    }

    /// Stores `key`, labelled with the id, under the id, or under the default
    /// id where none is given. An id that is already held is overridden only
    /// where `allow_override` says so; the session attached to it is then
    /// dropped.
    pub fn import(&mut self, key: JWK, key_id: Option<String>, allow_override: bool) -> (r: Result<
        String,
        SessionError,
    >)
        ensures
            id_result_view(r) == import_result(old(self)@, opt_view(key_id), allow_override),
            final(self)@ == import_state(old(self)@, key_view(key), opt_view(key_id), allow_override),
            final(self).pending() == import_pending(
                old(self)@,
                old(self).pending(),
                opt_view(key_id),
                allow_override,
            ),
            labels_synchronized(final(self)@),
    {
        let id = match key_id {
            Some(id) => id,
            None => String::from_str("default"),
        };
        if self.contains_key(&id) && !allow_override {
            self.labels_hold();
            return Err(
                SessionError::new(ErrorKind::DuplicateKey, join2("key already exists: ", id.as_str())),
            );
        }
        let labelled = label_key(key, id.as_str());
        self.put(id.clone(), SessionInfo { key: labelled, session: None });
        self.drop_waiting(&id);
        self.labels_hold();
        Ok(id)
    }

    /// Stores the fresh key `key` under the id, or under the default id
    /// where none is given, unless the id is already held.
    pub fn create(&mut self, key: JWK, key_id: Option<String>) -> (r: Result<String, SessionError>)
        ensures
            id_result_view(r) == create_result(old(self)@, opt_view(key_id)),
            final(self)@ == create_state(old(self)@, key_view(key), opt_view(key_id)),
            final(self).pending() == import_pending(old(self)@, old(self).pending(), opt_view(key_id), false),
            labels_synchronized(final(self)@),
    {
        self.import(key, key_id, false)
    }

    /// The key held under the id, or under the default id where none is
    /// given.
    pub fn export(&self, key_id: Option<String>) -> (r: Result<JWK, SessionError>)
        ensures
            key_result_view(r) == export_result(self@, opt_view(key_id)),
            r matches Ok(key) ==> jwk_label(key) == Some(resolve_key_id(opt_view(key_id))),
    {
        proof {
            use_type_invariant(self);
        }
        let id = match key_id {
            Some(id) => id,
            None => String::from_str("default"),
        };
        match self.position(&id) {
            Some(i) => {
                proof {
                    lemma_entry_in_map(self.entries@, i as int);
                }
                Ok(clone_key(&self.entries[i].info.key))
            },
            None => Err(SessionError::new(ErrorKind::KeyNotFound, join2("key not found: ", id.as_str()))),
        }
    }

    /// Moves what is held under `old_id`, the session included, to `new_id`,
    /// and labels the key with the new id.
    pub fn rename(&mut self, old_id: String, new_id: String) -> (r: Result<(), SessionError>)
        ensures
            unit_result_view(r) == rename_result(old(self)@, old_id@, new_id@),
            final(self)@ == rename_state(old(self)@, old_id@, new_id@),
            final(self).pending() == rename_pending(old(self)@, old(self).pending(), old_id@, new_id@),
            labels_synchronized(final(self)@),
    {
        self.labels_hold();
        if !self.contains_key(&old_id) {
            return Err(
                SessionError::new(ErrorKind::KeyNotFound, join3("Key ", old_id.as_str(), " does not exist.")),
            );
        }
        if self.contains_key(&new_id) {
            return Err(
                SessionError::new(ErrorKind::DuplicateKey, join3("Key ", new_id.as_str(), " already exists.")),
            );
        }
        self.drop_waiting(&new_id);
        match self.take(&old_id) {
            Some(info) => {
                let key = label_key(info.key, new_id.as_str());
                self.put(new_id, SessionInfo { key, session: info.session });
            },
            None => {},
        }
        self.labels_hold();
        Ok(())
    }

    /// The ids that are held, each once, in no particular order.
    pub fn list(&self) -> (ids: Vec<String>)
        ensures
            no_id_twice(ids@),
            forall|id: Seq<char>| lists_id(ids@, id) <==> self@.dom().contains(id),
    {
        proof {
            use_type_invariant(self);
        }
        let mut ids: Vec<String> = Vec::new();
        let mut i: usize = 0;
        while i < self.entries.len()
            invariant
                i <= self.entries@.len(),
                ids@.len() == i,
                forall|j: int| 0 <= j < i ==> #[trigger] ids@[j]@ == self.entries@[j].key_id@,
            decreases self.entries@.len() - i,
        {
            ids.push(self.entries[i].key_id.clone());
            i += 1;
        }
        proof {
            assert forall|id: Seq<char>| lists_id(ids@, id) <==> self@.dom().contains(id) by {
                if lists_id(ids@, id) {
                    let j = choose|j: int| 0 <= j < ids@.len() && #[trigger] ids@[j]@ == id;
                    assert(self.entries@[j].key_id@ == id);
                }
                if has_id(self.entries@, id) {
                    let j = index_of(self.entries@, id);
                    assert(ids@[j]@ == id);
                }
            }
        }
        ids
    }

    /// Attaches the session to the id given, else to the id that the session
    /// names, in place of a session attached there before. Where the id is
    /// not held, the session is kept for it beside the keys, and the id does
    /// not come to be held.
    pub fn attach_session(&mut self, key_id: Option<String>, session: Session) -> (r: Result<
        (),
        SessionError,
    >)
        ensures
            unit_result_view(r) == attach_result(opt_view(key_id), session@),
            final(self)@ == attach_state(old(self)@, opt_view(key_id), session@),
            final(self).pending() == attach_pending(
                old(self)@,
                old(self).pending(),
                opt_view(key_id),
                session@,
            ),
            labels_synchronized(final(self)@),
    {
        let target = match key_id {
            Some(id) => Some(id),
            None => match &session.key_id {
                Some(id) => Some(id.clone()),
                None => None,
            },
        };
        let r = match target {
            Some(id) => {
                match self.take(&id) {
                    Some(info) => {
                        self.put(id, SessionInfo { key: info.key, session: Some(session) });
                        assert(self@ =~= attach_state(old(self)@, opt_view(key_id), session@));
                    },
                    None => {
                        assert(self@ =~= old(self)@);
                        self.keep_waiting(id, session);
                    },
                }
                Ok(())
            },
            None => Err(SessionError::new(ErrorKind::MissingKeyId, String::from_str("No key_id provided"))),
        };
        self.labels_hold();
        r
    }
}

proof fn lemma_put(before: Seq<Entry>, after: Seq<Entry>, entry: Entry)
    requires
        distinct_ids(before),
        all_labelled(before),
        labelled_with_id(entry),
        ({
            ||| exists|i: int|
                0 <= i < before.len() && before[i].key_id@ == entry.key_id@ && after == before.update(i, entry)
            ||| !has_id(before, entry.key_id@) && after == before.push(entry)
        }),
    ensures
        distinct_ids(after),
        all_labelled(after),
        entries_map(after) == entries_map(before).insert(entry.key_id@, entry.info@),
{
    let target = entries_map(before).insert(entry.key_id@, entry.info@);
    assert(all_labelled(after)) by {
        assert forall|j: int| 0 <= j < after.len() implies labelled_with_id(#[trigger] after[j]) by {
            if j < before.len() && after[j] == before[j] {
                assert(labelled_with_id(before[j]));
            }
        }
    }
    if has_id(before, entry.key_id@) {
        let i = choose|i: int|
            0 <= i < before.len() && before[i].key_id@ == entry.key_id@ && after == before.update(i, entry);
        assert(forall|j: int| 0 <= j < after.len() ==> #[trigger] after[j].key_id@ == before[j].key_id@);
        assert(distinct_ids(after));
        assert forall|id: Seq<char>| has_id(after, id) <==> target.dom().contains(id) by {
            if has_id(after, id) {
                let j = index_of(after, id);
                assert(before[j].key_id@ == id);
            }
            if has_id(before, id) {
                let j = index_of(before, id);
                assert(after[j].key_id@ == id);
            }
            if id == entry.key_id@ {
                assert(after[i].key_id@ == id);
            }
        }
        assert forall|id: Seq<char>| has_id(after, id) implies entries_map(after)[id] == target[id] by {
            let j = index_of(after, id);
            lemma_entry_in_map(after, j);
            if j != i {
                assert(before[j].key_id@ == id);
                lemma_entry_in_map(before, j);
            }
        }
    } else {
        assert(forall|j: int| 0 <= j < before.len() ==> #[trigger] after[j].key_id@ == before[j].key_id@);
        assert(after[before.len() as int].key_id@ == entry.key_id@);
        assert(distinct_ids(after)) by {
            assert forall|a: int, b: int|
                0 <= a < after.len() && 0 <= b < after.len() && a != b implies #[trigger] after[a].key_id@
                != #[trigger] after[b].key_id@ by {
                if a < before.len() && b < before.len() {
                    assert(before[a].key_id@ != before[b].key_id@);
                } else if a < before.len() {
                    assert(before[a].key_id@ == after[a].key_id@);
                } else {
                    assert(before[b].key_id@ == after[b].key_id@);
                }
            }
        }
        assert forall|id: Seq<char>| has_id(after, id) <==> target.dom().contains(id) by {
            if has_id(after, id) {
                let j = index_of(after, id);
                if j < before.len() {
                    assert(before[j].key_id@ == id);
                }
            }
            if has_id(before, id) {
                let j = index_of(before, id);
                assert(after[j].key_id@ == id);
            }
            if id == entry.key_id@ {
                assert(after[before.len() as int].key_id@ == id);
            }
        }
        assert forall|id: Seq<char>| has_id(after, id) implies entries_map(after)[id] == target[id] by {
            let j = index_of(after, id);
            lemma_entry_in_map(after, j);
            if j < before.len() {
                assert(before[j].key_id@ == id);
                lemma_entry_in_map(before, j);
            }
        }
    }
    assert(entries_map(after) =~= target);
}

proof fn lemma_take(before: Seq<Entry>, after: Seq<Entry>, i: int)
    requires
        distinct_ids(before),
        all_labelled(before),
        0 <= i < before.len(),
        after == before.remove(i),
    ensures
        distinct_ids(after),
        all_labelled(after),
        labelled_with_id(before[i]),
        entries_map(before).dom().contains(before[i].key_id@),
        entries_map(before)[before[i].key_id@] == before[i].info@,
        entries_map(after) == entries_map(before).remove(before[i].key_id@),
{
    lemma_entry_in_map(before, i);
    let gone = before[i].key_id@;
    let target = entries_map(before).remove(gone);
    assert(forall|j: int| 0 <= j < i ==> #[trigger] after[j] == before[j]);
    assert(forall|j: int| i <= j < after.len() ==> #[trigger] after[j] == before[j + 1]);
    assert(all_labelled(after)) by {
        assert forall|j: int| 0 <= j < after.len() implies labelled_with_id(#[trigger] after[j]) by {
            let j0 = if j < i { j } else { j + 1 };
            assert(after[j] == before[j0]);
            assert(labelled_with_id(before[j0]));
        }
    }
    assert(distinct_ids(after)) by {
        assert forall|a: int, b: int|
            0 <= a < after.len() && 0 <= b < after.len() && a != b implies #[trigger] after[a].key_id@
            != #[trigger] after[b].key_id@ by {
            let a0 = if a < i { a } else { a + 1 };
            let b0 = if b < i { b } else { b + 1 };
            assert(after[a] == before[a0] && after[b] == before[b0]);
            assert(before[a0].key_id@ != before[b0].key_id@);
        }
    }
    assert forall|id: Seq<char>| has_id(after, id) <==> target.dom().contains(id) by {
        if has_id(after, id) {
            let j = index_of(after, id);
            let j0 = if j < i { j } else { j + 1 };
            assert(after[j] == before[j0]);
            assert(before[j0].key_id@ == id);
            assert(before[j0].key_id@ != before[i].key_id@);
        }
        if has_id(before, id) && id != gone {
            let j = index_of(before, id);
            let j1 = if j < i { j } else { j - 1 };
            assert(after[j1] == before[j]);
            assert(after[j1].key_id@ == id);
        }
    }
    assert forall|id: Seq<char>| has_id(after, id) implies entries_map(after)[id] == target[id] by {
        let j = index_of(after, id);
        lemma_entry_in_map(after, j);
        let j0 = if j < i { j } else { j + 1 };
        assert(after[j] == before[j0]);
        lemma_entry_in_map(before, j0);
    }
    assert(entries_map(after) =~= target);
}

} // verus!
