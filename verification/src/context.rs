//! The graphics backend seen as an abstract state: which buffer objects are
//! alive, which buffer is bound to the element-array binding point, and the
//! history of uploads and deletions. The backend itself (an OpenGL-style
//! driver binding) lives outside this crate and is reached through the
//! [`GraphicsContext`] trait; [`RecordingContext`] is a verified in-memory
//! implementation used by the tests and by anything that needs to observe
//! the exact call sequence the core issues.

use vstd::prelude::*;

verus! {

/// The operations the core needs from a graphics backend, together with the
/// observable state they act on.
///
/// The observable state is: the set of live buffer handles, the buffer bound
/// to the element-array binding point, the ordered log of uploads (target
/// handle and raw bytes), and the ordered log of deleted handles. Each
/// operation's contract states exactly how it changes that state, so code
/// built on this trait is verified against the lifecycle rules of the
/// backend (a handle must be live to be bound or deleted; an upload goes to
/// the buffer bound at that moment) without seeing the backend itself.
///
/// A single logical rendering thread owns the context; the binding point is
/// shared mutable state, which is why every method takes `&mut self`.
pub trait GraphicsContext: Sized {
    /// Well-formedness of the context's own bookkeeping; every operation
    /// requires and preserves it. The default leaves the state abstract;
    /// a verified implementation overrides it.
    open spec fn inv(&self) -> bool {
        arbitrary()
    }

    /// True when `id` names a buffer object that has been created and not
    /// yet deleted.
    open spec fn live(&self, id: u32) -> bool {
        arbitrary()
    }

    /// The buffer currently bound to the element-array binding point.
    open spec fn bound(&self) -> Option<u32> {
        arbitrary()
    }

    /// The targets of all uploads issued so far, oldest first.
    open spec fn upload_targets(&self) -> Seq<u32> {
        arbitrary()
    }

    /// The raw bytes of all uploads issued so far, oldest first; entry `i`
    /// went to buffer `upload_targets()[i]`.
    open spec fn upload_payloads(&self) -> Seq<Seq<u8>> {
        arbitrary()
    }

    /// The handles of all deleted buffers, oldest first.
    open spec fn deletes(&self) -> Seq<u32> {
        arbitrary()
    }

    /// How many error checks have been performed.
    open spec fn error_check_count(&self) -> nat {
        arbitrary()
    }

    /// Allocates a fresh buffer object. On success the returned handle was
    /// not live before and is live afterwards; nothing else changes. On
    /// failure the observable state is unchanged and the `String` is the
    /// backend's description of the failure.
    fn create_buffer(&mut self) -> (r: Result<u32, String>)
        requires
            old(self).inv(),
        ensures
            final(self).inv(),
            match r {
                Ok(id) => {
                    &&& !old(self).live(id)
                    &&& final(self).live(id)
                    &&& forall|other: u32|
                        other != id ==> #[trigger] final(self).live(other) == old(self).live(
                            other,
                        )
                    &&& final(self).bound() == old(self).bound()
                    &&& final(self).upload_targets() == old(self).upload_targets()
                    &&& final(self).upload_payloads() == old(self).upload_payloads()
                    &&& final(self).deletes() == old(self).deletes()
                    &&& final(self).error_check_count() == old(self).error_check_count()
                },
                Err(_) => {
                    &&& forall|other: u32|
                        #[trigger] final(self).live(other) == old(self).live(other)
                    &&& final(self).bound() == old(self).bound()
                    &&& final(self).upload_targets() == old(self).upload_targets()
                    &&& final(self).upload_payloads() == old(self).upload_payloads()
                    &&& final(self).deletes() == old(self).deletes()
                    &&& final(self).error_check_count() == old(self).error_check_count()
                },
            },
    ;

    /// Binds a live buffer to the element-array binding point.
    fn bind_element_buffer(&mut self, id: u32)
        requires
            old(self).inv(),
            old(self).live(id),
        ensures
            final(self).inv(),
            final(self).bound() == Some(id),
            forall|other: u32| #[trigger] final(self).live(other) == old(self).live(other),
            final(self).upload_targets() == old(self).upload_targets(),
            final(self).upload_payloads() == old(self).upload_payloads(),
            final(self).deletes() == old(self).deletes(),
            final(self).error_check_count() == old(self).error_check_count(),
    ;

    /// Clears the element-array binding point, so that later operations on
    /// it cannot touch a buffer they did not bind themselves.
    fn unbind_element_buffer(&mut self)
        requires
            old(self).inv(),
        ensures
            final(self).inv(),
            final(self).bound() is None,
            forall|other: u32| #[trigger] final(self).live(other) == old(self).live(other),
            final(self).upload_targets() == old(self).upload_targets(),
            final(self).upload_payloads() == old(self).upload_payloads(),
            final(self).deletes() == old(self).deletes(),
            final(self).error_check_count() == old(self).error_check_count(),
    ;

    /// Uploads raw bytes to the buffer bound to the element-array binding
    /// point, fully replacing its contents.
    fn element_buffer_data(&mut self, data: &[u8])
        requires
            old(self).inv(),
            old(self).bound() is Some,
        ensures
            final(self).inv(),
            final(self).bound() == old(self).bound(),
            forall|other: u32| #[trigger] final(self).live(other) == old(self).live(other),
            final(self).upload_targets() == old(self).upload_targets().push(
                old(self).bound()->0,
            ),
            final(self).upload_payloads() == old(self).upload_payloads().push(data@),
            final(self).deletes() == old(self).deletes(),
            final(self).error_check_count() == old(self).error_check_count(),
    ;

    /// Deletes a live buffer object. The handle stops being live, exactly
    /// one deletion is recorded, and if the deleted buffer was bound it is
    /// unbound (as the backend does).
    fn delete_buffer(&mut self, id: u32)
        requires
            old(self).inv(),
            old(self).live(id),
        ensures
            final(self).inv(),
            !final(self).live(id),
            forall|other: u32|
                other != id ==> #[trigger] final(self).live(other) == old(self).live(other),
            final(self).bound() == if old(self).bound() == Some(id) {
                None
            } else {
                old(self).bound()
            },
            final(self).upload_targets() == old(self).upload_targets(),
            final(self).upload_payloads() == old(self).upload_payloads(),
            final(self).deletes() == old(self).deletes().push(id),
            final(self).error_check_count() == old(self).error_check_count(),
    ;

    /// Returns the first error the backend accumulated since the last
    /// check, or success. Whether an error is pending is the backend's
    /// decision; the observable state is unchanged either way.
    fn error_check(&mut self) -> (r: Result<(), String>)
        requires
            old(self).inv(),
        ensures
            final(self).inv(),
            final(self).bound() == old(self).bound(),
            forall|other: u32| #[trigger] final(self).live(other) == old(self).live(other),
            final(self).upload_targets() == old(self).upload_targets(),
            final(self).upload_payloads() == old(self).upload_payloads(),
            final(self).deletes() == old(self).deletes(),
            final(self).error_check_count() == old(self).error_check_count() + 1,
    ;
}

/// The two context states agree on which buffers are live.
pub open spec fn same_live_buffers<C: GraphicsContext>(pre: C, post: C) -> bool {
    forall|id: u32| #[trigger] post.live(id) == pre.live(id)
}

/// The two context states have the same upload, deletion and error-check
/// history.
pub open spec fn same_history<C: GraphicsContext>(pre: C, post: C) -> bool {
    &&& post.upload_targets() == pre.upload_targets()
    &&& post.upload_payloads() == pre.upload_payloads()
    &&& post.deletes() == pre.deletes()
    &&& post.error_check_count() == pre.error_check_count()
}

/// The views of every entry of a sequence, in order.
pub open spec fn views_of<T: View>(s: Seq<T>) -> Seq<T::V> {
    Seq::new(s.len(), |i: int| s[i]@)
}

pub proof fn lemma_views_of_push<T: View>(s: Seq<T>, x: T)
    ensures
        views_of(s.push(x)) == views_of(s).push(x@),
{
    assert(views_of(s.push(x)) =~= views_of(s).push(x@));
}

/// A verified in-memory graphics backend that records every call: handles
/// are numbered in creation order, uploads and deletions are logged, and
/// nothing is sent anywhere. It never accumulates an error on its own, but
/// one can be injected to exercise callers' error paths.
pub struct RecordingContext {
    next_id: u32,
    created: Vec<u32>,
    deleted: Vec<u32>,
    bound_buffer: Option<u32>,
    upload_targets_log: Vec<u32>,
    upload_payloads_log: Vec<Vec<u8>>,
    pending_error: Option<String>,
    refuse_creates: bool,
    error_checks: Ghost<nat>,
}

impl RecordingContext {
    /// A fresh context: no live buffers, nothing bound, empty logs.
    pub fn new() -> (ctx: RecordingContext)
        ensures
            ctx.inv(),
            forall|id: u32| !(#[trigger] ctx.live(id)),
            ctx.bound() is None,
            ctx.upload_targets() == Seq::<u32>::empty(),
            ctx.upload_payloads() == Seq::<Seq<u8>>::empty(),
            ctx.deletes() == Seq::<u32>::empty(),
            ctx.error_check_count() == 0,
    {
        let ctx = RecordingContext {
            next_id: 0,
            created: Vec::new(),
            deleted: Vec::new(),
            bound_buffer: None,
            upload_targets_log: Vec::new(),
            upload_payloads_log: Vec::new(),
            pending_error: None,
            refuse_creates: false,
            error_checks: Ghost(0),
        };
        proof {
            assert(views_of(ctx.upload_payloads_log@) =~= Seq::<Seq<u8>>::empty());
        }
        ctx
    }

    /// Makes the next error check report the given error, as a backend
    /// would after a failed upload.
    pub fn inject_error(&mut self, message: String)
        requires
            old(self).inv(),
        ensures
            final(self).inv(),
            final(self).bound() == old(self).bound(),
            forall|other: u32| #[trigger] final(self).live(other) == old(self).live(other),
            final(self).upload_targets() == old(self).upload_targets(),
            final(self).upload_payloads() == old(self).upload_payloads(),
            final(self).deletes() == old(self).deletes(),
            final(self).error_check_count() == old(self).error_check_count(),
    {
        self.pending_error = Some(message);
    }

    /// Makes every later buffer allocation fail, as a backend out of
    /// memory would.
    pub fn refuse_allocations(&mut self)
        requires
            old(self).inv(),
        ensures
            final(self).inv(),
            final(self).bound() == old(self).bound(),
            forall|other: u32| #[trigger] final(self).live(other) == old(self).live(other),
            final(self).upload_targets() == old(self).upload_targets(),
            final(self).upload_payloads() == old(self).upload_payloads(),
            final(self).deletes() == old(self).deletes(),
            final(self).error_check_count() == old(self).error_check_count(),
    {
        self.refuse_creates = true;
    }

    /// How many uploads have been issued.
    pub fn upload_count(&self) -> (n: usize)
        ensures
            n == self.upload_targets().len(),
    {
        self.upload_targets_log.len()
    }

    /// The target handle of upload number `i`, oldest first.
    pub fn upload_target(&self, i: usize) -> (id: u32)
        requires
            i < self.upload_targets().len(),
        ensures
            id == self.upload_targets()[i as int],
    {
        self.upload_targets_log[i]
    }

    /// The bytes of upload number `i`, oldest first.
    pub fn upload_payload(&self, i: usize) -> (bytes: &Vec<u8>)
        requires
            i < self.upload_payloads().len(),
        ensures
            bytes@ == self.upload_payloads()[i as int],
    {
        &self.upload_payloads_log[i]
    }

    /// The buffer currently bound to the element-array binding point.
    pub fn bound_buffer(&self) -> (r: Option<u32>)
        ensures
            r == self.bound(),
    {
        self.bound_buffer
    }

    /// How many buffers have been deleted.
    pub fn delete_count(&self) -> (n: usize)
        ensures
            n == self.deletes().len(),
    {
        self.deleted.len()
    }

    /// The handle of deletion number `i`, oldest first.
    pub fn deleted_handle(&self, i: usize) -> (id: u32)
        requires
            i < self.deletes().len(),
        ensures
            id == self.deletes()[i as int],
    {
        self.deleted[i]
    }

    /// Whether `id` is a live buffer of this context.
    pub fn is_live(&self, id: u32) -> (r: bool)
        ensures
            r == self.live(id),
    {
        contains_u32(&self.created, id) && !contains_u32(&self.deleted, id)
    }
}

/// Whether the vector holds the given value.
fn contains_u32(v: &Vec<u32>, x: u32) -> (r: bool)
    ensures
        r == v@.contains(x),
{
    let mut i: usize = 0;
    while i < v.len()
        invariant
            i <= v@.len(),
            forall|j: int| 0 <= j < i ==> v@[j] != x,
        decreases v@.len() - i,
    {
        if v[i] == x {
            return true;
        }
        i += 1;
    }
    false
}

impl GraphicsContext for RecordingContext {
    closed spec fn inv(&self) -> bool {
        &&& forall|i: int|
            0 <= i < self.created@.len() ==> #[trigger] self.created@[i] < self.next_id
        &&& forall|i: int|
            0 <= i < self.deleted@.len() ==> #[trigger] self.deleted@[i] < self.next_id
    }

    closed spec fn live(&self, id: u32) -> bool {
        self.created@.contains(id) && !self.deleted@.contains(id)
    }

    closed spec fn bound(&self) -> Option<u32> {
        self.bound_buffer
    }

    closed spec fn upload_targets(&self) -> Seq<u32> {
        self.upload_targets_log@
    }

    closed spec fn upload_payloads(&self) -> Seq<Seq<u8>> {
        views_of(self.upload_payloads_log@)
    }

    closed spec fn deletes(&self) -> Seq<u32> {
        self.deleted@
    }

    closed spec fn error_check_count(&self) -> nat {
        self.error_checks@
    }

    fn create_buffer(&mut self) -> (r: Result<u32, String>) {
        if self.refuse_creates {
            return Err("buffer allocation refused".to_owned());
        }
        if self.next_id == u32::MAX {
            return Err("buffer handles exhausted".to_owned());
        }
        let id = self.next_id;
        self.next_id = id + 1;
        self.created.push(id);
        proof {
            broadcast use vstd::seq_lib::lemma_seq_contains_after_push;

            assert(!old(self).created@.contains(id)) by {
                if old(self).created@.contains(id) {
                    let i = choose|i: int|
                        0 <= i < old(self).created@.len() && old(self).created@[i] == id;
                    assert(old(self).created@[i] < id);
                }
            }
            assert(!self.deleted@.contains(id)) by {
                if self.deleted@.contains(id) {
                    let i = choose|i: int|
                        0 <= i < self.deleted@.len() && self.deleted@[i] == id;
                    assert(self.deleted@[i] < id);
                }
            }
            assert(self.created@ == old(self).created@.push(id));
        }
        Ok(id)
    }

    fn bind_element_buffer(&mut self, id: u32) {
        self.bound_buffer = Some(id);
    }

    fn unbind_element_buffer(&mut self) {
        self.bound_buffer = None;
    }

    fn element_buffer_data(&mut self, data: &[u8]) {
        let target = match self.bound_buffer {
            Some(id) => id,
            None => 0,
        };
        self.upload_targets_log.push(target);
        let bytes = vstd::slice::slice_to_vec(data);
        proof {
            lemma_views_of_push(old(self).upload_payloads_log@, bytes);
        }
        self.upload_payloads_log.push(bytes);
    }

    fn delete_buffer(&mut self, id: u32) {
        self.deleted.push(id);
        if self.bound_buffer == Some(id) {
            self.bound_buffer = None;
        }
        proof {
            broadcast use vstd::seq_lib::lemma_seq_contains_after_push;

            assert(id < self.next_id) by {
                let i = choose|i: int|
                    0 <= i < self.created@.len() && self.created@[i] == id;
                assert(self.created@[i] < self.next_id);
            }
            assert(self.deleted@ == old(self).deleted@.push(id));
            assert(self.deleted@.contains(id));
        }
    }

    fn error_check(&mut self) -> (r: Result<(), String>) {
        self.error_checks = Ghost(self.error_checks@ + 1);
        match &self.pending_error {
            Some(message) => {
                let m = message.clone();
                self.pending_error = None;
                Err(m)
            },
            None => Ok(()),
        }
    }
}

} // verus!
