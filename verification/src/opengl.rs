//! The function table's reference registry and the GPU resources that hold a
//! reference to it.

use vstd::prelude::*;

use crate::gl::{GLenum, GLuint, GlCall, NO_ERROR, SLOTS};

verus! {

/// One reference to the function table, held by one resource.
///
/// A handle is made by [`Gl::acquire`] and given back with [`Gl::release`]; it
/// cannot be copied.
#[derive(Debug)]
pub struct GlHandle {
    key: usize,
}

impl GlHandle {
    /// The number under which the table knows this reference.
    pub closed spec fn key(self) -> nat {
        self.key as nat
    }
}

/// What a function table is to a contract: how many references it has handed
/// out so far, and which of them are still held.
pub struct GlView {
    pub issued: nat,
    pub live: Set<nat>,
}

impl GlView {
    /// The held references are finitely many and were all handed out.
    pub open spec fn wf(self) -> bool {
        &&& self.live.finite()
        &&& forall|k: nat| self.live.contains(k) ==> k < self.issued
    }

    /// The reference count: one for the device controller, one for each
    /// reference that a resource holds.
    pub open spec fn strong_count(self) -> nat {
        self.live.len() + 1
    }

    /// The table after one more reference has been handed out.
    pub open spec fn acquire(self) -> GlView {
        GlView { issued: self.issued + 1, live: self.live.insert(self.issued) }
    }

    /// The table after the reference `key` has been given back.
    pub open spec fn release(self, key: nat) -> GlView {
        GlView { issued: self.issued, live: self.live.remove(key) }
    }
}

/// The loaded function table, as far as ownership goes: a registry of the
/// references that resources hold to it.
///
/// The device controller owns the table. A resource that is created against
/// it takes a reference and gives it back when it is released, so the count
/// tells at any time how many resources are still alive.
#[derive(Debug)]
pub struct Gl {
    issued: usize,
    live: Vec<usize>,
}

impl View for Gl {
    type V = GlView;

    closed spec fn view(&self) -> GlView {
        GlView { issued: self.issued as nat, live: self.live@.map_values(|k: usize| k as nat).to_set() }
    }
}

proof fn lemma_keys_push(s: Seq<usize>, k: usize)
    requires
        s.no_duplicates(),
        !s.contains(k),
    ensures
        s.push(k).no_duplicates(),
        s.push(k).map_values(|k: usize| k as nat).to_set() == s.map_values(
            |k: usize| k as nat,
        ).to_set().insert(k as nat),
{
    let f = |k: usize| k as nat;
    let t = s.push(k);
    assert forall|i: int, j: int| 0 <= i < t.len() && 0 <= j < t.len() && i != j implies t[i]
        != t[j] by {
        if i < s.len() && j < s.len() {
        } else if i < s.len() {
            assert(s.contains(s[i]));
        } else {
            assert(s.contains(s[j]));
        }
    }
    assert(t.map_values(f) =~= s.map_values(f).push(k as nat));
    s.map_values(f).lemma_push_to_set_commute(k as nat);
}

proof fn lemma_keys_remove(s: Seq<usize>, i: int)
    requires
        s.no_duplicates(),
        0 <= i < s.len(),
    ensures
        s.remove(i).no_duplicates(),
        s.remove(i).map_values(|k: usize| k as nat).to_set() == s.map_values(
            |k: usize| k as nat,
        ).to_set().remove(s[i] as nat),
{
    let f = |k: usize| k as nat;
    let t = s.remove(i);
    assert forall|a: int, b: int| 0 <= a < t.len() && 0 <= b < t.len() && a != b implies t[a]
        != t[b] by {
        let a0 = if a < i { a } else { a + 1 };
        let b0 = if b < i { b } else { b + 1 };
        assert(t[a] == s[a0] && t[b] == s[b0]);
    }
    let lhs = t.map_values(f).to_set();
    let rhs = s.map_values(f).to_set().remove(s[i] as nat);
    assert forall|x: nat| lhs.contains(x) implies rhs.contains(x) by {
        let a = choose|a: int| 0 <= a < t.len() && t.map_values(f)[a] == x;
        let a0 = if a < i { a } else { a + 1 };
        assert(t[a] == s[a0]);
        assert(s.map_values(f)[a0] == x);
        assert(s[a0] != s[i]);
    }
    assert forall|x: nat| rhs.contains(x) implies lhs.contains(x) by {
        let a0 = choose|a0: int| 0 <= a0 < s.len() && s.map_values(f)[a0] == x;
        assert(a0 != i);
        let a = if a0 < i { a0 } else { a0 - 1 };
        assert(t[a] == s[a0]);
        assert(t.map_values(f)[a] == x);
    }
    assert(lhs =~= rhs);
}

proof fn lemma_keys_len(s: Seq<usize>)
    requires
        s.no_duplicates(),
    ensures
        s.map_values(|k: usize| k as nat).to_set().len() == s.len(),
        s.map_values(|k: usize| k as nat).to_set().finite(),
{
    let f = |k: usize| k as nat;
    let m = s.map_values(f);
    assert forall|i: int, j: int| 0 <= i < m.len() && 0 <= j < m.len() && i != j implies m[i]
        != m[j] by {
        assert(s[i] != s[j]);
    }
    m.unique_seq_to_set();
}

impl Gl {
    /// The registry's own invariant: no reference is listed twice, and every
    /// listed reference was handed out.
    pub closed spec fn wf(&self) -> bool {
        &&& self.live@.no_duplicates()
        &&& self.live@.len() <= self.issued
        &&& self.issued < usize::MAX
        &&& forall|i: int| 0 <= i < self.live@.len() ==> self.live@[i] < self.issued
    }

    /// Whether one more reference can be handed out.
    pub open spec fn has_room(&self) -> bool {
        self@.issued + 1 < usize::MAX
    }

    /// A well-formed registry has a well-formed view.
    pub proof fn lemma_view_wf(&self)
        requires
            self.wf(),
        ensures
            self@.wf(),
            self@.live.len() <= self@.issued,
            self@.issued < usize::MAX,
    {
        lemma_keys_len(self.live@);
        let f = |k: usize| k as nat;
        assert forall|k: nat| self@.live.contains(k) implies k < self@.issued by {
            let i = choose|i: int| 0 <= i < self.live@.len() && self.live@.map_values(f)[i] == k;
            assert(self.live@[i] < self.issued);
        }
    }

    /// A table that only the device controller refers to.
    pub fn new() -> (gl: Gl)
        ensures
            gl.wf(),
            gl@.issued == 0,
            gl@.live == Set::<nat>::empty(),
    {
        let gl = Gl { issued: 0, live: Vec::new() };
        assert(gl@.live =~= Set::<nat>::empty());
        gl
    }

    /// The number of references to the table, the controller's own included.
    pub fn strong_count(&self) -> (count: usize)
        requires
            self.wf(),
        ensures
            count == self@.strong_count(),
    {
        proof {
            lemma_keys_len(self.live@);
        }
        self.live.len() + 1
    }

    /// Whether the controller's reference is the only one left, that is, no
    /// resource created against this table is still alive.
    pub fn is_unique(&self) -> (unique: bool)
        requires
            self.wf(),
        ensures
            unique == (self@.strong_count() == 1),
    {
        proof {
            lemma_keys_len(self.live@);
        }
        self.live.len() == 0
    }

    /// Whether one more reference can be handed out, see [`Gl::has_room`].
    pub fn can_acquire(&self) -> (room: bool)
        requires
            self.wf(),
        ensures
            room == self.has_room(),
    {
        self.issued < usize::MAX - 1
    }

    /// Hands out a new reference.
    pub fn acquire(&mut self) -> (handle: GlHandle)
        requires
            old(self).wf(),
            old(self).has_room(),
        ensures
            final(self).wf(),
            final(self)@ == old(self)@.acquire(),
            handle.key() == old(self)@.issued,
    {
        let key = self.issued;
        proof {
            if self.live@.contains(key) {
                let i = choose|i: int| 0 <= i < self.live@.len() && self.live@[i] == key;
                assert(self.live@[i] < self.issued);
            }
            lemma_keys_push(self.live@, key);
        }
        self.live.push(key);
        self.issued = self.issued + 1;
        GlHandle { key }
    }

    /// Takes a reference back. A reference under whose number the table
    /// lists none changes nothing.
    pub fn release(&mut self, handle: GlHandle)
        requires
            old(self).wf(),
        ensures
            final(self).wf(),
            final(self)@ == old(self)@.release(handle.key()),
    {
        let mut i: usize = 0;
        while i < self.live.len()
            invariant
                self.wf(),
                *self == *old(self),
                i <= self.live@.len(),
                forall|j: int| 0 <= j < i ==> self.live@[j] != handle.key,
            decreases self.live@.len() - i,
        {
            if self.live[i] == handle.key {
                proof {
                    lemma_keys_remove(self.live@, i as int);
                }
                self.live.remove(i);
                return ;
            }
            i = i + 1;
        }
        proof {
            let f = |k: usize| k as nat;
            let s = self.live@.map_values(f).to_set();
            if s.contains(handle.key()) {
                let j = choose|j: int|
                    0 <= j < self.live@.len() && self.live@.map_values(f)[j] == handle.key();
                assert(self.live@[j] == handle.key);
            }
            assert(s.remove(handle.key()) =~= s);
        }
    }
}

/// What every GPU resource offers: to give up its native object and its
/// reference to the function table.
pub trait GlResource: Sized {
    /// The reference that the resource holds while it is alive.
    spec fn handle(&self) -> Option<nat>;

    /// The driver calls that delete the resource's native object.
    spec fn release_calls(&self) -> Seq<GlCall>;

    /// Whether the resource is alive: it was created and not released. Only
    /// a resource that is alive can be bound, updated or drawn with.
    fn is_alive(&self) -> (alive: bool)
        ensures
            alive == (self.handle() is Some),
    ;

    /// Releases the resource: returns the calls that delete its native
    /// object and gives its reference back to `gl`. Releasing a resource that
    /// is not alive changes nothing and asks for no call, so that a second
    /// release is harmless.
    fn release(&mut self, gl: &mut Gl) -> (calls: Vec<GlCall>)
        requires
            old(gl).wf(),
        ensures
            final(gl).wf(),
            final(self).handle() is None,
            final(self).release_calls() == old(self).release_calls(),
            match old(self).handle() {
                Some(key) => final(gl)@ == old(gl)@.release(key) && calls@ == old(
                    self,
                ).release_calls(),
                None => final(gl)@ == old(gl)@ && calls@ == Seq::<GlCall>::empty() && *final(self)
                    == *old(self),
            },
    ;
}

/// The table of indexed binding points that a resource has bound itself to.
#[derive(Debug)]
pub struct ActiveSlots {
    active: [bool; 32],
}

impl View for ActiveSlots {
    type V = Seq<bool>;

    closed spec fn view(&self) -> Seq<bool> {
        self.active@
    }
}

/// The table in which no binding point is marked.
pub open spec fn no_slots() -> Seq<bool> {
    Seq::new(SLOTS as nat, |i: int| false)
}

/// The binding points among the first `n` that are marked in `slots`, in
/// ascending order.
pub open spec fn marked(slots: Seq<bool>, n: nat) -> Seq<GLuint>
    decreases n,
{
    if n == 0 {
        Seq::empty()
    } else if slots[n - 1] {
        marked(slots, (n - 1) as nat).push((n - 1) as GLuint)
    } else {
        marked(slots, (n - 1) as nat)
    }
}

/// The marked binding points are listed in ascending order, each of them
/// once, and no other is listed.
pub proof fn lemma_marked(slots: Seq<bool>, n: nat)
    requires
        n <= slots.len(),
        n <= SLOTS,
    ensures
        forall|k: int|
            0 <= k < marked(slots, n).len() ==> (#[trigger] marked(slots, n)[k]) < n
                && slots[marked(slots, n)[k] as int],
        forall|j: int, k: int|
            0 <= j < k < marked(slots, n).len() ==> marked(slots, n)[j] < marked(slots, n)[k],
        forall|i: int| 0 <= i < n && slots[i] ==> marked(slots, n).contains(i as GLuint),
        marked(slots, n).len() <= n,
    decreases n,
{
    if n > 0 {
        let before = marked(slots, (n - 1) as nat);
        lemma_marked(slots, (n - 1) as nat);
        let all = marked(slots, n);
        assert forall|i: int| 0 <= i < n && slots[i] implies all.contains(i as GLuint) by {
            if i < n - 1 {
                let k = choose|k: int| 0 <= k < before.len() && before[k] == i as GLuint;
                assert(all[k] == i as GLuint);
            } else {
                assert(all[all.len() - 1] == i as GLuint);
            }
        }
    }
}

impl ActiveSlots {
    pub fn new() -> (slots: ActiveSlots)
        ensures
            slots@ == no_slots(),
    {
        let slots = ActiveSlots { active: [false;32] };
        assert(slots@ =~= no_slots());
        slots
    }

    /// A table always has one entry for each binding point.
    pub proof fn lemma_len(&self)
        ensures
            self@.len() == SLOTS,
    {
    }

    /// Marks a binding point.
    pub fn set(&mut self, slot: GLuint)
        requires
            slot < SLOTS,
        ensures
            final(self)@ == old(self)@.update(slot as int, true),
    {
        self.active[slot as usize] = true;
    }

    /// Whether a binding point is marked.
    pub fn get(&self, slot: GLuint) -> (active: bool)
        requires
            slot < SLOTS,
        ensures
            active == self@[slot as int],
    {
        self.active[slot as usize]
    }

    /// Removes the mark of a binding point.
    pub fn clear(&mut self, slot: GLuint)
        requires
            slot < SLOTS,
        ensures
            final(self)@ == old(self)@.update(slot as int, false),
    {
        self.active[slot as usize] = false;
    }
}

/// Decides from the answers of the driver's error queue, in the order in
/// which they were read, whether the calls before it failed: they did if the
/// queue answered at all and its first answer is an error.
pub fn check_error(codes: &[GLenum]) -> (has_error: bool)
    ensures
        has_error == (codes@.len() > 0 && codes@[0] != NO_ERROR),
{
    codes.len() > 0 && codes[0] != NO_ERROR
}

//////////////////////////////////////////////////
// Accounting of the references

impl GlView {
    /// The table after a resource that holds `handle` has been released: a
    /// resource that is not alive holds nothing and gives nothing back.
    pub open spec fn released(self, handle: Option<nat>) -> GlView {
        match handle {
            Some(key) => self.release(key),
            None => self,
        }
    }
}

/// Handing out a reference keeps the table well-formed and raises the
/// reference count by one.
pub proof fn lemma_acquire_counts(gl: GlView)
    requires
        gl.wf(),
    ensures
        gl.acquire().wf(),
        gl.acquire().strong_count() == gl.strong_count() + 1,
{
    if gl.live.contains(gl.issued) {
        assert(gl.issued < gl.issued);
    }
}

/// Giving a reference back keeps the table well-formed and lowers the
/// reference count by one if the reference was held, and not at all if it
/// was not. To give it back a second time changes nothing.
pub proof fn lemma_release_idempotent(gl: GlView, key: nat)
    requires
        gl.wf(),
    ensures
        gl.release(key).wf(),
        gl.live.contains(key) ==> gl.release(key).strong_count() + 1 == gl.strong_count(),
        !gl.live.contains(key) ==> gl.release(key) == gl,
        gl.release(key).release(key) == gl.release(key),
{
    assert(gl.release(key).live.remove(key) =~= gl.release(key).live);
    if !gl.live.contains(key) {
        assert(gl.live.remove(key) =~= gl.live);
    }
}

/// The references that the resources of a family hold. The family is given
/// by what each of its resources holds, nothing for one that is not alive.
pub open spec fn held(handles: Seq<Option<nat>>) -> Set<nat> {
    Set::new(|key: nat| handles.contains(Some(key)))
}

/// The number of resources of a family that are alive.
pub open spec fn alive(handles: Seq<Option<nat>>) -> nat
    decreases handles.len(),
{
    if handles.len() == 0 {
        0
    } else if handles.last() is Some {
        alive(handles.drop_last()) + 1
    } else {
        alive(handles.drop_last())
    }
}

/// Whether the table accounts for a family of resources: no two resources
/// hold the same reference, and the references that the table lists as held
/// are those that the resources hold.
pub open spec fn accounts(gl: GlView, handles: Seq<Option<nat>>) -> bool {
    &&& forall|i: int, j: int|
        0 <= i < j < handles.len() && handles[i] is Some ==> handles[i] != handles[j]
    &&& gl.live == held(handles)
}

proof fn lemma_held_count(handles: Seq<Option<nat>>)
    requires
        forall|i: int, j: int|
            0 <= i < j < handles.len() && handles[i] is Some ==> handles[i] != handles[j],
    ensures
        held(handles).finite(),
        held(handles).len() == alive(handles),
    decreases handles.len(),
{
    if handles.len() == 0 {
        assert(held(handles) =~= Set::<nat>::empty());
    } else {
        let front = handles.drop_last();
        lemma_held_count(front);
        match handles.last() {
            Some(key) => {
                if held(front).contains(key) {
                    let i = choose|i: int| 0 <= i < front.len() && front[i] == Some(key);
                    assert(handles[i] != handles[handles.len() - 1]);
                }
                assert forall|k: nat| held(handles).contains(k) <==> held(front).insert(
                    key,
                ).contains(k) by {
                    if held(handles).contains(k) {
                        let i = choose|i: int| 0 <= i < handles.len() && handles[i] == Some(k);
                        if i < front.len() {
                            assert(front[i] == Some(k));
                        }
                    }
                    if held(front).contains(k) {
                        let i = choose|i: int| 0 <= i < front.len() && front[i] == Some(k);
                        assert(handles[i] == Some(k));
                    }
                    if k == key {
                        assert(handles[handles.len() - 1] == Some(k));
                    }
                }
                assert(held(handles) =~= held(front).insert(key));
            },
            None => {
                assert forall|k: nat| held(handles).contains(k) <==> held(front).contains(k) by {
                    if held(handles).contains(k) {
                        let i = choose|i: int| 0 <= i < handles.len() && handles[i] == Some(k);
                        assert(front[i] == Some(k));
                    }
                    if held(front).contains(k) {
                        let i = choose|i: int| 0 <= i < front.len() && front[i] == Some(k);
                        assert(handles[i] == Some(k));
                    }
                }
                assert(held(handles) =~= held(front));
            },
        }
    }
}

/// A table that accounts for a family of resources has one reference for
/// each of them that is alive, and one more, which is the controller's.
pub proof fn lemma_count_is_alive_plus_one(gl: GlView, handles: Seq<Option<nat>>)
    requires
        accounts(gl, handles),
    ensures
        gl.strong_count() == alive(handles) + 1,
{
    lemma_held_count(handles);
}

/// A table that only the controller refers to accounts for the family of no
/// resources.
pub proof fn lemma_new_accounts()
    ensures
        accounts(GlView { issued: 0, live: Set::empty() }, Seq::empty()),
{
    assert(held(Seq::<Option<nat>>::empty()) =~= Set::<nat>::empty());
}

/// When a resource is created, the table accounts for the family with the
/// new resource.
pub proof fn lemma_create_accounts(gl: GlView, handles: Seq<Option<nat>>)
    requires
        gl.wf(),
        accounts(gl, handles),
    ensures
        accounts(gl.acquire(), handles.push(Some(gl.issued))),
{
    let after = handles.push(Some(gl.issued));
    assert forall|i: int, j: int| 0 <= i < j < after.len() && after[i] is Some implies after[i]
        != after[j] by {
        if j == handles.len() {
            if after[i] == Some(gl.issued) {
                assert(handles[i] == Some(gl.issued));
                assert(held(handles).contains(gl.issued));
            }
        } else {
            assert(handles[i] != handles[j]);
        }
    }
    assert forall|k: nat| gl.acquire().live.contains(k) <==> held(after).contains(k) by {
        if held(after).contains(k) {
            let i = choose|i: int| 0 <= i < after.len() && after[i] == Some(k);
            if i < handles.len() {
                assert(handles[i] == Some(k));
            }
        }
        if held(handles).contains(k) {
            let i = choose|i: int| 0 <= i < handles.len() && handles[i] == Some(k);
            assert(after[i] == Some(k));
        }
        if k == gl.issued {
            assert(after[handles.len() as int] == Some(k));
        }
    }
    assert(gl.acquire().live =~= held(after));
}

/// When a resource of the family is released, the table accounts for the
/// family with that resource no longer alive. This holds as well when the
/// resource was released before.
pub proof fn lemma_release_accounts(gl: GlView, handles: Seq<Option<nat>>, i: int)
    requires
        accounts(gl, handles),
        0 <= i < handles.len(),
    ensures
        accounts(gl.released(handles[i]), handles.update(i, None)),
{
    let after = handles.update(i, None);
    assert forall|a: int, b: int| 0 <= a < b < after.len() && after[a] is Some implies after[a]
        != after[b] by {
        if b != i {
            assert(handles[a] != handles[b]);
        }
    }
    assert forall|k: nat| gl.released(handles[i]).live.contains(k) <==> held(after).contains(
        k,
    ) by {
        if held(after).contains(k) {
            let a = choose|a: int| 0 <= a < after.len() && after[a] == Some(k);
            assert(handles[a] == Some(k));
            if handles[i] == Some(k) {
                if a < i {
                    assert(handles[a] != handles[i]);
                } else {
                    assert(handles[i] != handles[a]);
                }
            }
        }
        if gl.released(handles[i]).live.contains(k) {
            assert(held(handles).contains(k));
            let a = choose|a: int| 0 <= a < handles.len() && handles[a] == Some(k);
            assert(a != i);
            assert(after[a] == Some(k));
        }
    }
    assert(gl.released(handles[i]).live =~= held(after));
}

} // verus!
