//! The slot of a thread: the context that is current on it, what is bound in
//! that context, and how many references keep it current.

use vstd::prelude::*;
use std::rc::Rc;
use std::sync::Arc;
use crate::api::Api;
use crate::buffer::BufferTarget;
use crate::context::{reports, Context, ContextBackend};
use crate::error::Error;
use crate::gl::{Gl, GLuint};
use crate::native::NativeCall;
use crate::state_cache::StateCache;

verus! {

/// The context that is current on a thread.
///
/// A thread has one slot, an `Option<CurrentContext>`, which is empty while
/// no context is current on it. [`make_current`] fills the slot and
/// [`release`] empties it again once the last reference is gone. A value of
/// this type never leaves the thread of its slot.
pub struct CurrentContext {
    context_: Rc<Context>,
    state_cache_: StateCache,
    strong_count_: usize,
}

/// What a [`CurrentContext`] stands for.
pub struct CurrentContextView {
    /// The context that is current.
    pub context: Rc<Context>,
    /// What is recorded as bound in it.
    pub state_cache: StateCache,
    /// How many references keep it current: one for each call of
    /// [`make_current`] and one for each resource in current mode, less
    /// those that were released.
    pub strong_count: nat,
}

impl View for CurrentContext {
    type V = CurrentContextView;

    closed spec fn view(&self) -> CurrentContextView {
        CurrentContextView {
            context: self.context_,
            state_cache: self.state_cache_,
            strong_count: self.strong_count_ as nat,
        }
    }
}

/// What a slot stands for.
pub open spec fn slot_view(slot: Option<CurrentContext>) -> Option<CurrentContextView> {
    match slot {
        Some(current_context) => Some(current_context@),
        None => None,
    }
}

impl CurrentContextView {
    /// One reference more.
    pub open spec fn retained(self) -> CurrentContextView {
        CurrentContextView { strong_count: self.strong_count + 1, ..self }
    }

    /// The same with another record of what is bound.
    pub open spec fn with_state_cache(self, state_cache: StateCache) -> CurrentContextView {
        CurrentContextView { state_cache, ..self }
    }
}

/// The slot after `context` was made current in it, where the slot was
/// empty or wrapped another context: it wraps `context`, nothing is
/// recorded as bound, and there is one reference more than before.
pub open spec fn activated(
    slot: Option<CurrentContextView>,
    context: Rc<Context>,
) -> CurrentContextView {
    CurrentContextView {
        context,
        state_cache: StateCache::unbound(),
        strong_count: match slot {
            Some(current_context) => current_context.strong_count + 1,
            None => 1,
        },
    }
}

/// The slot after `context` was made current in it, where `same` says that
/// the slot wraps that very context already. For the same context nothing
/// changes but that there is one reference more: what is recorded as bound
/// in a context is true of it still. For another context, and in an empty
/// slot, the slot is as [`activated`] says.
pub open spec fn made_current(
    slot: Option<CurrentContextView>,
    context: Rc<Context>,
    same: bool,
) -> CurrentContextView {
    match slot {
        Some(current_context) if same => current_context.retained(),
        _ => activated(slot, context),
    }
}

/// The calls that make a context current, given what its backend reports.
pub open spec fn activation_calls(is_current: bool) -> Seq<NativeCall> {
    if is_current {
        Seq::empty()
    } else {
        seq![NativeCall::MakeCurrent]
    }
}

/// The slot after one reference was released: empty if it was the last.
pub open spec fn released(slot: Option<CurrentContextView>) -> Option<CurrentContextView> {
    match slot {
        Some(current_context) => if current_context.strong_count <= 1 {
            None
        } else {
            Some(
                CurrentContextView {
                    strong_count: (current_context.strong_count - 1) as nat,
                    ..current_context
                },
            )
        },
        None => None,
    }
}

/// The calls that the release of one reference asks for: the current
/// context is cleared when the last reference goes.
pub open spec fn release_calls(slot: Option<CurrentContextView>) -> Seq<NativeCall> {
    match slot {
        Some(current_context) => if current_context.strong_count <= 1 {
            seq![NativeCall::ClearCurrentContext]
        } else {
            Seq::empty()
        },
        None => Seq::empty(),
    }
}

impl CurrentContext {
    #[verifier::type_invariant]
    spec fn referenced(&self) -> bool {
        self.strong_count_ >= 1
    }

    pub open spec fn spec_state_cache(&self) -> &StateCache {
        &self@.state_cache
    }

    pub open spec fn spec_context(&self) -> &Rc<Context> {
        &self@.context
    }

    pub open spec fn spec_strong_count(&self) -> usize {
        self@.strong_count as usize
    }

    /// What is recorded as bound.
    #[verifier::when_used_as_spec(spec_state_cache)]
    pub fn state_cache(&self) -> (state_cache: &StateCache)
        ensures
            *state_cache == self@.state_cache,
    {
        &self.state_cache_
    }

    /// The context that is current.
    #[verifier::when_used_as_spec(spec_context)]
    pub fn context(&self) -> (context: &Rc<Context>)
        ensures
            *context == self@.context,
    {
        &self.context_
    }

    /// The api of the context that is current.
    pub fn api(&self) -> (api: &Arc<Api>)
        ensures
            api == self@.context.api(),
    {
        self.context_.api()
    }

    /// The table of the native procedures.
    pub fn gl(&self) -> (gl: &Gl)
        ensures
            gl == self@.context.api().gl(),
    {
        self.context_.api().gl()
    }

    /// How many references keep the context current. Never 0.
    #[verifier::when_used_as_spec(spec_strong_count)]
    pub fn strong_count(&self) -> (strong_count: usize)
        ensures
            strong_count == self@.strong_count,
            strong_count >= 1,
    {
        proof {
            use_type_invariant(self);
        }
        self.strong_count_
    }

    /// Takes one reference more, as a copy of a reference does.
    pub fn retain(&mut self)
        requires
            old(self)@.strong_count < usize::MAX,
        ensures
            final(self)@ == old(self)@.retained(),
    {
        proof {
            use_type_invariant(&*self);
        }
        self.strong_count_ = self.strong_count_ + 1;
    }

    /// The handle recorded as bound at the binding point of `Target`.
    pub fn marked_bound<Target: BufferTarget>(&self) -> (gl_handle: GLuint)
        ensures
            gl_handle == Target::spec_marked_bound(self@.state_cache),
    {
        Target::marked_bound(&self.state_cache_)
    }

    /// Records `gl_handle` as bound at the binding point of `Target`.
    pub fn mark_bound<Target: BufferTarget>(&mut self, gl_handle: GLuint)
        ensures
            final(self)@ == old(self)@.with_state_cache(
                Target::spec_mark_bound(old(self)@.state_cache, gl_handle),
            ),
    {
        proof {
            use_type_invariant(&*self);
        }
        let mut state_cache = self.state_cache_;
        Target::mark_bound(&mut state_cache, gl_handle);
        self.state_cache_ = state_cache;
    }
}

/// A current context that is used for rendering.
pub struct CurrentRenderContext(pub CurrentContext);

/// Whether two shares are shares of one context.
///
/// Calls `Rc::ptr_eq`, which says whether two shares point to one
/// allocation. The contract claims of it that shares of one allocation hold
/// the same context. Two shares of which it says no may hold equal contexts
/// all the same.
#[verifier::external_body]
fn same_context(held: &Rc<Context>, context: &Rc<Context>) -> (same: bool)
    ensures
        same ==> held == context,
{
    Rc::ptr_eq(held, context)
}

/// Makes `context` current in the slot, given whether the slot wraps that
/// very context already, and what its backend reports on whether it is
/// current.
///
/// For the context that the slot wraps already nothing changes but that the
/// caller holds one reference more. An empty slot is filled, and a slot that
/// wraps another context wraps `context` from now on; in both cases nothing
/// is recorded as bound afterwards, because the record of another context
/// says nothing of this one, and the caller holds one reference more. The
/// native call is due only if the backend does not report the context as
/// current.
pub fn activate(
    slot: &mut Option<CurrentContext>,
    context: Rc<Context>,
    same: bool,
    is_current: bool,
) -> (calls: Vec<NativeCall>)
    requires
        *old(slot) matches Some(current_context) ==> current_context@.strong_count < usize::MAX,
        same ==> (*old(slot) matches Some(current_context) && current_context@.context
            == context),
    ensures
        slot_view(*final(slot)) == Some(made_current(slot_view(*old(slot)), context, same)),
        calls@ == activation_calls(is_current),
{
    match slot {
        Some(current_context) => {
            proof {
                use_type_invariant(&*current_context);
            }
            if !same {
                current_context.context_ = context;
                current_context.state_cache_.clear();
            }
            current_context.strong_count_ = current_context.strong_count_ + 1;
        },
        None => {
            *slot = Some(
                CurrentContext {
                    context_: context,
                    state_cache_: StateCache::new(),
                    strong_count_: 1,
                },
            );
        },
    }
    let mut calls: Vec<NativeCall> = Vec::new();
    if !is_current {
        calls.push(NativeCall::MakeCurrent);
    }
    calls
}

/// Makes `context` current in the slot: finds out whether the slot wraps
/// that very context already, asks its backend whether it is current, and
/// goes on as [`activate`] does with the two answers.
///
/// A context that is not the one that the slot wraps is never taken for it.
/// A share of the context that the slot wraps is taken for it if it is a
/// copy of the share in the slot.
pub fn make_current(slot: &mut Option<CurrentContext>, context: Rc<Context>) -> (calls: Vec<
    NativeCall,
>)
    requires
        *old(slot) matches Some(current_context) ==> current_context@.strong_count < usize::MAX,
    ensures
        slot_view(*final(slot)) == Some(made_current(slot_view(*old(slot)), context, false)) || {
            &&& *old(slot) matches Some(current_context) && current_context@.context == context
            &&& slot_view(*final(slot)) == Some(
                made_current(slot_view(*old(slot)), context, true),
            )
        },
        exists|is_current: bool|
            #[trigger] reports::<dyn ContextBackend>(&**context.spec_backend(), is_current)
                && calls@ == activation_calls(is_current),
{
    let same = match slot {
        Some(current_context) => same_context(&current_context.context_, &context),
        None => false,
    };
    let is_current = context.is_current();
    activate(slot, context, same, is_current)
}

/// Concludes [`make_current`] with what came of the call that it asked for.
/// If the backend has failed to make the context current, the reference
/// that the caller took is released again, as [`release`] says, and the
/// failure is handed on. If not, nothing changes.
pub fn conclude_make_current(
    slot: &mut Option<CurrentContext>,
    performed: Result<(), Error>,
) -> (concluded: (Result<(), Error>, Vec<NativeCall>))
    ensures
        performed is Ok ==> {
            &&& concluded.0 is Ok
            &&& slot_view(*final(slot)) == slot_view(*old(slot))
            &&& concluded.1@ == Seq::<NativeCall>::empty()
        },
        performed matches Err(e) ==> {
            &&& concluded.0 == Err::<(), Error>(e)
            &&& slot_view(*final(slot)) == released(slot_view(*old(slot)))
            &&& concluded.1@ == release_calls(slot_view(*old(slot)))
        },
{
    match performed {
        Ok(()) => (Ok(()), Vec::new()),
        Err(e) => {
            let calls = release(slot);
            (Err(e), calls)
        },
    }
}

/// Releases one reference to the current context of the slot. When the last
/// one goes, the slot is emptied and the call that clears the current
/// context of the thread is due. An empty slot stays empty.
pub fn release(slot: &mut Option<CurrentContext>) -> (calls: Vec<NativeCall>)
    ensures
        slot_view(*final(slot)) == released(slot_view(*old(slot))),
        calls@ == release_calls(slot_view(*old(slot))),
{
    let mut calls: Vec<NativeCall> = Vec::new();
    let last = match slot {
        Some(current_context) => {
            proof {
                use_type_invariant(&*current_context);
            }
            if current_context.strong_count_ > 1 {
                current_context.strong_count_ = current_context.strong_count_ - 1;
                false
            } else {
                true
            }
        },
        None => false,
    };
    if last {
        *slot = None;
        calls.push(NativeCall::ClearCurrentContext);
    }
    calls
}

/// The call that clears the current context of the thread is due exactly
/// when a release empties a slot that was in use.
pub proof fn lemma_clear_with_last_release(slot: Option<CurrentContextView>)
    ensures
        release_calls(slot) == seq![NativeCall::ClearCurrentContext] <==> slot is Some && released(
            slot,
        ) is None,
        release_calls(slot) == Seq::<NativeCall>::empty() <==> !(slot is Some && released(slot)
            is None),
{
    assert(seq![NativeCall::ClearCurrentContext].len() == 1);
}

/// The slot after a number of references were released one after the
/// other.
pub open spec fn released_times(
    slot: Option<CurrentContextView>,
    times: nat,
) -> Option<CurrentContextView>
    decreases times,
{
    if times == 0 {
        slot
    } else {
        released_times(released(slot), (times - 1) as nat)
    }
}

/// A context stays current for as long as a reference to it is left: of
/// the releases that follow one another, each leaves the slot as it was
/// with one reference less, until the one that releases the last reference
/// empties it. That one and no other asks for the call that clears the
/// current context.
pub proof fn lemma_current_until_last_release(current_context: CurrentContextView, times: nat)
    requires
        current_context.strong_count >= 1,
    ensures
        times < current_context.strong_count ==> released_times(Some(current_context), times)
            == Some(
            CurrentContextView {
                strong_count: (current_context.strong_count - times) as nat,
                ..current_context
            },
        ),
        times >= current_context.strong_count ==> released_times(Some(current_context), times)
            is None,
        release_calls(released_times(Some(current_context), times)) == if times + 1
            == current_context.strong_count {
            seq![NativeCall::ClearCurrentContext]
        } else {
            Seq::<NativeCall>::empty()
        },
    decreases times,
{
    if times > 0 {
        if current_context.strong_count > 1 {
            lemma_current_until_last_release(
                CurrentContextView {
                    strong_count: (current_context.strong_count - 1) as nat,
                    ..current_context
                },
                (times - 1) as nat,
            );
        } else {
            lemma_released_empty_stays_empty((times - 1) as nat);
        }
    }
}

/// An empty slot stays empty, however often it is released.
pub proof fn lemma_released_empty_stays_empty(times: nat)
    ensures
        released_times(None, times) is None,
    decreases times,
{
    if times > 0 {
        lemma_released_empty_stays_empty((times - 1) as nat);
    }
}

/// A reference that is taken keeps the context current until it is
/// released: the release that follows a retain leaves the slot as it was,
/// and asks for no call.
pub proof fn lemma_retain_keeps_current(current_context: CurrentContextView)
    requires
        current_context.strong_count >= 1,
    ensures
        released(Some(current_context.retained())) == Some(current_context),
        release_calls(Some(current_context.retained())) == Seq::<NativeCall>::empty(),
{
}

/// Whatever a slot held, the release that follows on an activation leaves
/// it in use exactly if it was in use before.
pub proof fn lemma_release_after_activation(
    slot: Option<CurrentContextView>,
    context: Rc<Context>,
    same: bool,
)
    requires
        slot matches Some(current_context) ==> current_context.strong_count >= 1,
    ensures
        released(Some(made_current(slot, context, same))) is Some <==> slot is Some,
{
}

/// A context that is made current again in the slot that wraps it leaves
/// the slot as it is but for the reference that is taken: the same context
/// is wrapped, and what was recorded as bound is recorded still. Once the
/// reference is released the slot is as it was.
pub proof fn lemma_same_context_keeps_cache(current_context: CurrentContextView)
    requires
        current_context.strong_count >= 1,
    ensures
        made_current(Some(current_context), current_context.context, true).state_cache
            == current_context.state_cache,
        made_current(Some(current_context), current_context.context, true).context
            == current_context.context,
        released(Some(made_current(Some(current_context), current_context.context, true)))
            == Some(current_context),
{
}

/// Another context that is made current in a slot, and any context that is
/// made current in an empty slot, finds nothing recorded as bound.
pub proof fn lemma_other_context_clears_cache(
    slot: Option<CurrentContextView>,
    context: Rc<Context>,
    same: bool,
)
    requires
        same ==> (slot matches Some(current_context) && current_context.context == context),
        slot matches Some(current_context) ==> current_context.context != context,
    ensures
        made_current(slot, context, same) == activated(slot, context),
        made_current(slot, context, same).state_cache == StateCache::unbound(),
{
}

} // verus!
