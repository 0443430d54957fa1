//! Buffers, in current mode and in async mode.
//!
//! A buffer is one native handle in one of two wrappers. A [`CurrentBuffer`]
//! belongs to the thread whose slot it was made in: it can be bound and
//! filled, and it holds one reference to the current context of that slot.
//! An [`AsyncBuffer`] can be handed to other threads, and nothing can be done
//! with it but to turn it into a current buffer again. Every conversion
//! consumes the wrapper it starts from, so that a handle is never in both.

use vstd::prelude::*;
use std::marker::PhantomData;
use std::mem::size_of;
use std::rc::Rc;
use std::sync::Arc;
use crate::api::Api;
use crate::async_handle::{as_async, as_current, shares, AsyncView};
use crate::context::Context;
use crate::current_context::{
    made_current, release, release_calls, released, slot_view, CurrentContext,
    CurrentContextView,
};
use crate::gl::{GLenum, GLuint, STATIC_DRAW};
use crate::native::{bound_after_all, NativeCall};
use crate::sharing_group::SharingGroup;
use crate::state_cache::StateCache;

verus! {

/// A kind of buffer: its target in the native API and its binding point in
/// the [`StateCache`].
pub trait BufferTarget {
    /// The value of the target.
    spec fn spec_enum_val() -> GLenum;

    /// The handle that the cache records at the binding point.
    spec fn spec_marked_bound(state_cache: StateCache) -> GLuint;

    /// The cache with `gl_handle` recorded at the binding point.
    spec fn spec_mark_bound(state_cache: StateCache, gl_handle: GLuint) -> StateCache;

    /// What was recorded at the binding point is what is read from it.
    proof fn marked_bound_after_mark_bound(state_cache: StateCache, gl_handle: GLuint)
        ensures
            Self::spec_marked_bound(Self::spec_mark_bound(state_cache, gl_handle)) == gl_handle,
    ;

    /// Nothing is bound at the binding point of a cache in which nothing is
    /// bound.
    proof fn marked_bound_of_unbound()
        ensures
            Self::spec_marked_bound(StateCache::unbound()) == 0,
    ;

    /// The value of the target. It never changes.
    fn enum_val() -> (enum_val: GLenum)
        ensures
            enum_val == Self::spec_enum_val(),
    ;

    /// The handle recorded as bound, 0 for none.
    fn marked_bound(state_cache: &StateCache) -> (gl_handle: GLuint)
        ensures
            gl_handle == Self::spec_marked_bound(*state_cache),
    ;

    /// Records `gl_handle` as bound, 0 for none.
    fn mark_bound(state_cache: &mut StateCache, gl_handle: GLuint)
        ensures
            *final(state_cache) == Self::spec_mark_bound(*old(state_cache), gl_handle),
    ;
}

/// The calls that bind `gl_handle` to the target: the native bind, unless the
/// cache records the handle as bound already.
pub open spec fn bind_calls<Target: BufferTarget>(
    state_cache: StateCache,
    gl_handle: GLuint,
) -> Seq<NativeCall> {
    if Target::spec_marked_bound(state_cache) != gl_handle {
        seq![NativeCall::BindBuffer { target: Target::spec_enum_val(), buffer: gl_handle }]
    } else {
        Seq::empty()
    }
}

/// The cache after `gl_handle` was bound to the target.
pub open spec fn after_bind<Target: BufferTarget>(
    state_cache: StateCache,
    gl_handle: GLuint,
) -> StateCache {
    if Target::spec_marked_bound(state_cache) != gl_handle {
        Target::spec_mark_bound(state_cache, gl_handle)
    } else {
        state_cache
    }
}

/// The cache after `gl_handle` left current mode: if it was recorded as
/// bound, nothing is.
pub open spec fn after_unbind<Target: BufferTarget>(
    state_cache: StateCache,
    gl_handle: GLuint,
) -> StateCache {
    if Target::spec_marked_bound(state_cache) == gl_handle {
        Target::spec_mark_bound(state_cache, 0)
    } else {
        state_cache
    }
}

/// The size in bytes of `len` elements of type `DataElem`.
pub open spec fn byte_len<DataElem>(len: nat) -> nat {
    vstd::layout::size_of::<DataElem>() * len
}

/// A buffer that can be handed to other threads. Before anything is done
/// with it, it is turned into a [`CurrentBuffer`] on the thread that is to
/// use it. That holds of its end too: no context is at hand in async mode,
/// so there is no way to delete the buffer but in current mode. Its handle
/// is never 0.
pub struct AsyncBuffer<Target: BufferTarget> {
    gl_handle_: GLuint,
    sharing_group_: Arc<SharingGroup>,
    phantom_target_: PhantomData<Target>,
}

impl<Target: BufferTarget> View for AsyncBuffer<Target> {
    type V = AsyncView;

    closed spec fn view(&self) -> AsyncView {
        AsyncView { gl_handle: self.gl_handle_, sharing_group: self.sharing_group_ }
    }
}

impl<Target: BufferTarget> AsyncBuffer<Target> {
    #[verifier::type_invariant]
    spec fn alive(&self) -> bool {
        self.gl_handle_ != 0
    }

    pub open spec fn spec_api(&self) -> &Arc<Api> {
        self@.sharing_group.api()
    }

    pub open spec fn spec_sharing_group(&self) -> &Arc<SharingGroup> {
        &self@.sharing_group
    }

    pub open spec fn spec_gl_handle(&self) -> GLuint {
        self@.gl_handle
    }

    /// The api: that of the sharing group.
    #[verifier::when_used_as_spec(spec_api)]
    pub fn api(&self) -> (api: &Arc<Api>)
        ensures
            api == self@.sharing_group.api(),
    {
        self.sharing_group_.api()
    }

    /// The sharing group.
    #[verifier::when_used_as_spec(spec_sharing_group)]
    pub fn sharing_group(&self) -> (sharing_group: &Arc<SharingGroup>)
        ensures
            *sharing_group == self@.sharing_group,
    {
        &self.sharing_group_
    }

    /// The native handle. Never 0.
    #[verifier::when_used_as_spec(spec_gl_handle)]
    pub fn gl_handle(&self) -> (gl_handle: GLuint)
        ensures
            gl_handle == self@.gl_handle,
            gl_handle != 0,
    {
        proof {
            use_type_invariant(self);
        }
        self.gl_handle_
    }

    /// Takes the buffer apart into its handle and its share of the group. The
    /// caller answers for the handle from now on.
    pub fn split(self) -> (parts: (GLuint, Arc<SharingGroup>))
        ensures
            parts.0 == self@.gl_handle,
            parts.0 != 0,
            parts.1 == self@.sharing_group,
    {
        proof {
            use_type_invariant(&self);
        }
        (self.gl_handle_, self.sharing_group_)
    }

    /// Turns the buffer into a current buffer of the slot's thread. The new
    /// buffer takes a reference to the current context, and nothing is
    /// recorded as bound to the target afterwards.
    ///
    /// The current context is one whose objects the buffer is among: a
    /// context of the sharing group that the buffer belongs to.
    pub fn to_current(self, current_context: &mut CurrentContext) -> (buffer: CurrentBuffer<Target>)
        requires
            shares(self@, *old(current_context)@.context),
            old(current_context)@.strong_count < usize::MAX,
        ensures
            buffer.gl_handle() == as_current(self@),
            final(current_context)@ == old(current_context)@.retained().with_state_cache(
                Target::spec_mark_bound(old(current_context)@.state_cache, 0),
            ),
    {
        let (gl_handle, _) = self.split();
        current_context.mark_bound::<Target>(0);
        CurrentBuffer::from_gl_handle(gl_handle, current_context)
    }

    /// The async buffer of a handle that the caller answers for.
    pub fn from_gl_handle(gl_handle: GLuint, sharing_group: Arc<SharingGroup>) -> (buffer: Self)
        requires
            gl_handle != 0,
        ensures
            buffer@ == as_async(gl_handle, sharing_group),
    {
        AsyncBuffer {
            gl_handle_: gl_handle,
            sharing_group_: sharing_group,
            phantom_target_: PhantomData,
        }
    }
}

/// A buffer of the thread whose slot it was made in. It holds one reference
/// to the current context of that slot, and gives it back when it is deleted
/// or turned into an [`AsyncBuffer`]. Like the current context it cannot be
/// sent to another thread. Its handle is never 0.
pub struct CurrentBuffer<Target: BufferTarget> {
    gl_handle_: GLuint,
    current_context_: PhantomData<Rc<CurrentContext>>,
    phantom_target_: PhantomData<Target>,
}

impl<Target: BufferTarget> CurrentBuffer<Target> {
    #[verifier::type_invariant]
    spec fn alive(&self) -> bool {
        self.gl_handle_ != 0
    }

    pub closed spec fn spec_gl_handle(&self) -> GLuint {
        self.gl_handle_
    }

    /// The native handle. Never 0.
    #[verifier::when_used_as_spec(spec_gl_handle)]
    pub fn gl_handle(&self) -> (gl_handle: GLuint)
        ensures
            gl_handle == self.spec_gl_handle(),
            gl_handle != 0,
    {
        proof {
            use_type_invariant(self);
        }
        self.gl_handle_
    }

    /// Binds the buffer to its target. The native call is due only if the
    /// cache does not record the buffer as bound; afterwards it does.
    pub fn bind(&self, current_context: &mut CurrentContext) -> (calls: Vec<NativeCall>)
        ensures
            final(current_context)@ == old(current_context)@.with_state_cache(
                after_bind::<Target>(old(current_context)@.state_cache, self.gl_handle()),
            ),
            calls@ == bind_calls::<Target>(old(current_context)@.state_cache, self.gl_handle()),
    {
        let mut calls: Vec<NativeCall> = Vec::new();
        if current_context.marked_bound::<Target>() != self.gl_handle() {
            calls.push(
                NativeCall::BindBuffer { target: Target::enum_val(), buffer: self.gl_handle() },
            );
            current_context.mark_bound::<Target>(self.gl_handle());
        }
        calls
    }

    /// Replaces the content of the buffer by `data`: binds the buffer, then
    /// uploads all of `data` for static use. The upload is as many bytes
    /// long as `data` is.
    ///
    /// No slice is longer in bytes than `isize::MAX`.
    pub fn set_data<DataElem: Copy>(
        &self,
        current_context: &mut CurrentContext,
        data: &[DataElem],
    ) -> (calls: Vec<NativeCall>)
        requires
            byte_len::<DataElem>(data@.len()) <= isize::MAX,
        ensures
            final(current_context)@ == old(current_context)@.with_state_cache(
                after_bind::<Target>(old(current_context)@.state_cache, self.gl_handle()),
            ),
            calls@ == bind_calls::<Target>(
                old(current_context)@.state_cache,
                self.gl_handle(),
            ).push(
                NativeCall::BufferData {
                    target: Target::spec_enum_val(),
                    size: byte_len::<DataElem>(data@.len()) as isize,
                    usage: STATIC_DRAW,
                },
            ),
    {
        let mut calls = self.bind(current_context);
        let elem_size: usize = size_of::<DataElem>();
        let len: usize = data.len();
        assert(elem_size * len == byte_len::<DataElem>(data@.len()));
        let data_len: usize = elem_size * len;
        calls.push(
            NativeCall::BufferData {
                target: Target::enum_val(),
                size: data_len as isize,
                usage: STATIC_DRAW,
            },
        );
        calls
    }

    /// Takes the buffer out of current mode and returns its handle. If the
    /// cache records the buffer as bound, it records nothing as bound
    /// afterwards. The reference that the buffer held passes to the caller,
    /// who answers for the handle from now on.
    pub fn split(self, current_context: &mut CurrentContext) -> (gl_handle: GLuint)
        ensures
            gl_handle == self.gl_handle(),
            gl_handle != 0,
            final(current_context)@ == old(current_context)@.with_state_cache(
                after_unbind::<Target>(old(current_context)@.state_cache, self.gl_handle()),
            ),
    {
        let gl_handle = self.gl_handle();
        if current_context.marked_bound::<Target>() == gl_handle {
            current_context.mark_bound::<Target>(0);
        }
        gl_handle
    }

    /// Turns the buffer into an async buffer of the same handle and the
    /// sharing group of the current context. The cache forgets the buffer,
    /// and the reference that the buffer held is released, which may end the
    /// current context as [`release`] says.
    ///
    /// The caller has made the native API finish all its work before: nothing
    /// that is under way refers to the handle any more.
    pub fn to_async(self, slot: &mut Option<CurrentContext>) -> (converted: (
        AsyncBuffer<Target>,
        Vec<NativeCall>,
    ))
        requires
            *old(slot) is Some,
        ensures
            converted.0@ == as_async(self.gl_handle(), *old(slot)->0@.context.sharing_group()),
            slot_view(*final(slot)) == released(
                Some(
                    old(slot)->0@.with_state_cache(
                        after_unbind::<Target>(old(slot)->0@.state_cache, self.gl_handle()),
                    ),
                ),
            ),
            converted.1@ == release_calls(slot_view(*old(slot))),
    {
        let mut current_context = slot.take().unwrap();
        let gl_handle = self.split(&mut current_context);
        let sharing_group = current_context.context().sharing_group().clone();
        *slot = Some(current_context);
        let calls = release(slot);
        (AsyncBuffer::from_gl_handle(gl_handle, sharing_group), calls)
    }

    /// The current buffer of a handle that the caller answers for. The
    /// buffer takes a reference to the current context.
    pub fn from_gl_handle(gl_handle: GLuint, current_context: &mut CurrentContext) -> (buffer: Self)
        requires
            gl_handle != 0,
            old(current_context)@.strong_count < usize::MAX,
        ensures
            buffer.gl_handle() == gl_handle,
            final(current_context)@ == old(current_context)@.retained(),
    {
        current_context.retain();
        CurrentBuffer {
            gl_handle_: gl_handle,
            current_context_: PhantomData,
            phantom_target_: PhantomData,
        }
    }

    /// The current buffer of the handle that the native API has generated,
    /// or `None` for the handle 0, which it never gives to a buffer. The
    /// buffer takes a reference to the current context.
    pub fn create(current_context: &mut CurrentContext, generated: GLuint) -> (buffer: Option<Self>)
        requires
            old(current_context)@.strong_count < usize::MAX,
        ensures
            buffer is Some <==> generated != 0,
            buffer matches Some(b) ==> b.gl_handle() == generated && final(current_context)@ == old(
                current_context,
            )@.retained(),
            buffer is None ==> final(current_context)@ == old(current_context)@,
    {
        if generated != 0 {
            Some(Self::from_gl_handle(generated, current_context))
        } else {
            None
        }
    }

    /// Ends the buffer. The cache forgets it, the native delete is due, and
    /// the reference that the buffer held is released, which may end the
    /// current context as [`release`] says.
    pub fn delete(self, slot: &mut Option<CurrentContext>) -> (calls: Vec<NativeCall>)
        requires
            *old(slot) is Some,
        ensures
            slot_view(*final(slot)) == released(
                Some(
                    old(slot)->0@.with_state_cache(
                        after_unbind::<Target>(old(slot)->0@.state_cache, self.gl_handle()),
                    ),
                ),
            ),
            calls@ == seq![NativeCall::DeleteBuffers { buffer: self.gl_handle() }] + release_calls(
                slot_view(*old(slot)),
            ),
    {
        let mut current_context = slot.take().unwrap();
        let gl_handle = self.split(&mut current_context);
        *slot = Some(current_context);
        let mut calls: Vec<NativeCall> = Vec::new();
        calls.push(NativeCall::DeleteBuffers { buffer: gl_handle });
        let mut release_calls = release(slot);
        calls.append(&mut release_calls);
        calls
    }
}

/// Whether the cache is right about the target: what it records as bound to
/// it, if anything, is `bound`, the handle that is bound to it in the
/// current context.
pub open spec fn records_truly<Target: BufferTarget>(
    state_cache: StateCache,
    bound: GLuint,
) -> bool {
    Target::spec_marked_bound(state_cache) != 0 ==> Target::spec_marked_bound(state_cache) == bound
}

/// A cache that is right about a target stays right, whatever is done with
/// a buffer of that target, as long as the calls that are asked for are
/// performed.
///
/// After a bind the buffer is bound indeed, also where the native call was
/// elided, and an upload that follows changes nothing in that. Once the
/// buffer has left current mode, without a call or with its deletion, the
/// cache is right still. So it is where the binding point was reset for a
/// buffer that came from async mode, and where the cache was cleared
/// because another context may have become current.
pub proof fn lemma_cache_stays_right<Target: BufferTarget>(
    state_cache: StateCache,
    bound: GLuint,
    gl_handle: GLuint,
    upload: NativeCall,
)
    requires
        records_truly::<Target>(state_cache, bound),
        gl_handle != 0,
        upload is BufferData,
    ensures
        bound_after_all(
            bind_calls::<Target>(state_cache, gl_handle),
            Target::spec_enum_val(),
            bound,
        ) == gl_handle,
        bound_after_all(
            bind_calls::<Target>(state_cache, gl_handle).push(upload),
            Target::spec_enum_val(),
            bound,
        ) == gl_handle,
        records_truly::<Target>(after_bind::<Target>(state_cache, gl_handle), gl_handle),
        records_truly::<Target>(after_unbind::<Target>(state_cache, gl_handle), bound),
        records_truly::<Target>(
            after_unbind::<Target>(state_cache, gl_handle),
            bound_after_all(
                seq![NativeCall::DeleteBuffers { buffer: gl_handle }],
                Target::spec_enum_val(),
                bound,
            ),
        ),
        records_truly::<Target>(Target::spec_mark_bound(state_cache, 0), bound),
        records_truly::<Target>(StateCache::unbound(), bound),
{
    let target = Target::spec_enum_val();
    let bind = NativeCall::BindBuffer { target, buffer: gl_handle };
    let delete = NativeCall::DeleteBuffers { buffer: gl_handle };
    Target::marked_bound_after_mark_bound(state_cache, gl_handle);
    Target::marked_bound_after_mark_bound(state_cache, 0);
    Target::marked_bound_of_unbound();
    reveal_with_fuel(bound_after_all, 3);
    assert(seq![bind].drop_first() =~= Seq::<NativeCall>::empty());
    assert(seq![delete].drop_first() =~= Seq::<NativeCall>::empty());
    assert(Seq::<NativeCall>::empty().push(upload).drop_first() =~= Seq::<NativeCall>::empty());
    assert(seq![bind].push(upload).drop_first() =~= seq![upload]);
    assert(seq![upload].drop_first() =~= Seq::<NativeCall>::empty());
}

/// Of two binds of one handle in a row, the second asks for no native call
/// and leaves the cache as it is. If the cache did not record the handle as
/// bound before the first, the two together ask for exactly one native bind.
pub proof fn lemma_second_bind_is_elided<Target: BufferTarget>(
    state_cache: StateCache,
    gl_handle: GLuint,
)
    ensures
        bind_calls::<Target>(after_bind::<Target>(state_cache, gl_handle), gl_handle)
            == Seq::<NativeCall>::empty(),
        after_bind::<Target>(after_bind::<Target>(state_cache, gl_handle), gl_handle)
            == after_bind::<Target>(state_cache, gl_handle),
        Target::spec_marked_bound(state_cache) != gl_handle ==> bind_calls::<Target>(
            state_cache,
            gl_handle,
        ) + bind_calls::<Target>(after_bind::<Target>(state_cache, gl_handle), gl_handle)
            == seq![NativeCall::BindBuffer { target: Target::spec_enum_val(), buffer: gl_handle }],
{
    Target::marked_bound_after_mark_bound(state_cache, gl_handle);
}

/// The calls that a run of binds asks for, one handle after the other, from
/// a cache onwards.
pub open spec fn run_of_bind_calls<Target: BufferTarget>(
    state_cache: StateCache,
    gl_handles: Seq<GLuint>,
) -> Seq<NativeCall>
    decreases gl_handles.len(),
{
    if gl_handles.len() == 0 {
        Seq::empty()
    } else {
        bind_calls::<Target>(state_cache, gl_handles.first()) + run_of_bind_calls::<Target>(
            after_bind::<Target>(state_cache, gl_handles.first()),
            gl_handles.drop_first(),
        )
    }
}

/// The handles without each one that repeats the handle before it, where
/// `bound` stands before the first.
pub open spec fn without_repeats(bound: GLuint, gl_handles: Seq<GLuint>) -> Seq<GLuint>
    decreases gl_handles.len(),
{
    if gl_handles.len() == 0 {
        Seq::empty()
    } else if gl_handles.first() == bound {
        without_repeats(bound, gl_handles.drop_first())
    } else {
        seq![gl_handles.first()] + without_repeats(gl_handles.first(), gl_handles.drop_first())
    }
}

/// A run of binds asks for one native bind for each handle that differs
/// from the handle bound before it, in their order, and for nothing else.
pub proof fn lemma_one_bind_for_each_change<Target: BufferTarget>(
    state_cache: StateCache,
    gl_handles: Seq<GLuint>,
)
    ensures
        run_of_bind_calls::<Target>(state_cache, gl_handles) == without_repeats(
            Target::spec_marked_bound(state_cache),
            gl_handles,
        ).map_values(
            |gl_handle: GLuint|
                NativeCall::BindBuffer { target: Target::spec_enum_val(), buffer: gl_handle },
        ),
    decreases gl_handles.len(),
{
    let bind = |gl_handle: GLuint|
        NativeCall::BindBuffer { target: Target::spec_enum_val(), buffer: gl_handle };
    let bound = Target::spec_marked_bound(state_cache);
    if gl_handles.len() == 0 {
        assert(without_repeats(bound, gl_handles).map_values(bind) =~= Seq::empty());
    } else {
        let first = gl_handles.first();
        let rest = gl_handles.drop_first();
        lemma_one_bind_for_each_change::<Target>(after_bind::<Target>(state_cache, first), rest);
        if first == bound {
            assert(bind_calls::<Target>(state_cache, first) + run_of_bind_calls::<Target>(
                state_cache,
                rest,
            ) =~= run_of_bind_calls::<Target>(state_cache, rest));
        } else {
            Target::marked_bound_after_mark_bound(state_cache, first);
            assert((seq![first] + without_repeats(first, rest)).map_values(bind) =~= seq![
                bind(first),
            ] + without_repeats(first, rest).map_values(bind));
        }
    }
}

/// Once another handle was bound to the target, a bind of the first handle
/// asks for the native call again.
pub proof fn lemma_bind_after_other_bind<Target: BufferTarget>(
    state_cache: StateCache,
    gl_handle: GLuint,
    other: GLuint,
)
    requires
        other != gl_handle,
    ensures
        bind_calls::<Target>(
            after_bind::<Target>(after_bind::<Target>(state_cache, gl_handle), other),
            gl_handle,
        ) == seq![NativeCall::BindBuffer { target: Target::spec_enum_val(), buffer: gl_handle }],
{
    Target::marked_bound_after_mark_bound(state_cache, gl_handle);
    Target::marked_bound_after_mark_bound(after_bind::<Target>(state_cache, gl_handle), other);
}

/// Once a buffer has left current mode, by deletion or by conversion, the
/// cache does not record its handle as bound. So the bind of a buffer that
/// is given the same handle later asks for the native call.
pub proof fn lemma_unbind_forgets_handle<Target: BufferTarget>(
    state_cache: StateCache,
    gl_handle: GLuint,
)
    requires
        gl_handle != 0,
    ensures
        Target::spec_marked_bound(after_unbind::<Target>(state_cache, gl_handle)) != gl_handle,
        bind_calls::<Target>(after_unbind::<Target>(state_cache, gl_handle), gl_handle)
            == seq![NativeCall::BindBuffer { target: Target::spec_enum_val(), buffer: gl_handle }],
{
    Target::marked_bound_after_mark_bound(state_cache, 0);
}

/// Once a context was made current in an empty slot, or in a slot that
/// wrapped another context, nothing is recorded as bound: the first bind of
/// any handle asks for the native call.
pub proof fn lemma_bind_after_make_current<Target: BufferTarget>(
    slot: Option<CurrentContextView>,
    context: Rc<Context>,
    same: bool,
    gl_handle: GLuint,
)
    requires
        gl_handle != 0,
        same ==> (slot matches Some(current_context) && current_context.context == context),
        slot matches Some(current_context) ==> current_context.context != context,
    ensures
        made_current(slot, context, same).state_cache == StateCache::unbound(),
        bind_calls::<Target>(made_current(slot, context, same).state_cache, gl_handle)
            == seq![NativeCall::BindBuffer { target: Target::spec_enum_val(), buffer: gl_handle }],
{
    Target::marked_bound_of_unbound();
}

/// A context that is made current again in the slot that wraps it finds
/// the cache as it was: a bind that was elided before is elided still.
pub proof fn lemma_bind_after_same_context<Target: BufferTarget>(
    current_context: CurrentContextView,
    gl_handle: GLuint,
)
    ensures
        bind_calls::<Target>(
            made_current(Some(current_context), current_context.context, true).state_cache,
            gl_handle,
        ) == bind_calls::<Target>(current_context.state_cache, gl_handle),
{
}

/// A buffer that goes from current mode to async mode and back in a slot
/// that others keep in use has the handle that it started with, and holds
/// one reference as before. The cache does not record it as bound any more:
/// its next bind asks for the native call.
pub proof fn lemma_round_trip<Target: BufferTarget>(
    current_context: CurrentContextView,
    gl_handle: GLuint,
)
    requires
        gl_handle != 0,
        current_context.strong_count >= 2,
    ensures
        as_current(as_async(gl_handle, *current_context.context.sharing_group())) == gl_handle,
        shares(
            as_async(gl_handle, *current_context.context.sharing_group()),
            *current_context.context,
        ),
        released(
            Some(
                current_context.with_state_cache(
                    after_unbind::<Target>(current_context.state_cache, gl_handle),
                ),
            ),
        ) matches Some(left) && left.retained().with_state_cache(
            Target::spec_mark_bound(left.state_cache, 0),
        ) == current_context.with_state_cache(
            Target::spec_mark_bound(
                after_unbind::<Target>(current_context.state_cache, gl_handle),
                0,
            ),
        ),
        bind_calls::<Target>(
            Target::spec_mark_bound(
                after_unbind::<Target>(current_context.state_cache, gl_handle),
                0,
            ),
            gl_handle,
        ) == seq![NativeCall::BindBuffer { target: Target::spec_enum_val(), buffer: gl_handle }],
{
    Target::marked_bound_after_mark_bound(
        after_unbind::<Target>(current_context.state_cache, gl_handle),
        0,
    );
}

} // verus!
