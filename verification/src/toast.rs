//! Toast notifications: their kinds and colours, and the queue of toasts on
//! screen.

use vstd::prelude::*;
use std::collections::VecDeque;

verus! {

/// The kind of a toast.
#[derive(Clone, Copy, PartialEq, Eq, Structural, Debug)]
pub enum ToastType {
    Success,
    Error,
    Warning,
    Info,
}

/// A notification on screen for `duration` milliseconds.
#[derive(PartialEq)]
pub struct Toast {
    pub id: u32,
    pub message: String,
    pub toast_type: ToastType,
    pub duration: u64,
}

/// The content of a `Toast`.
pub struct ToastView {
    pub id: u32,
    pub message: Seq<char>,
    pub toast_type: ToastType,
    pub duration: u64,
}

impl View for Toast {
    type V = ToastView;

    open spec fn view(&self) -> ToastView {
        ToastView {
            id: self.id,
            message: self.message@,
            toast_type: self.toast_type,
            duration: self.duration,
        }
    }
}

impl Clone for Toast {
    fn clone(&self) -> (r: Self)
        ensures
            r@ == self@,
    {
        Toast {
            id: self.id,
            message: self.message.clone(),
            toast_type: self.toast_type,
            duration: self.duration,
        }
    }
}

/// A random toast id, from `rand::random::<u32>`; any `u32` may come back.
#[verifier::external_body]
fn random_toast_id() -> u32 {
    rand::random::<u32>()
}

impl Toast {
    /// A new toast with a random id.
    pub fn new(message: String, toast_type: ToastType, duration: u64) -> (r: Self)
        ensures
            r.message@ == message@,
            r.toast_type == toast_type,
            r.duration == duration,
    {
        Toast { id: random_toast_id(), message, toast_type, duration }
    }
}

/// The background colour class of each kind of toast.
pub open spec fn toast_bg_spec(t: ToastType) -> Seq<char> {
    match t {
        ToastType::Success => "bg-green-500"@,
        ToastType::Error => "bg-red-500"@,
        ToastType::Warning => "bg-yellow-500"@,
        ToastType::Info => "bg-blue-500"@,
    }
}

/// The background colour class of a toast of kind `t`.
pub fn toast_bg_class(t: ToastType) -> (r: &'static str)
    ensures
        r@ == toast_bg_spec(t),
{
    match t {
        ToastType::Success => "bg-green-500",
        ToastType::Error => "bg-red-500",
        ToastType::Warning => "bg-yellow-500",
        ToastType::Info => "bg-blue-500",
    }
}

/// The views of a list of toasts.
pub open spec fn toast_views(ts: Seq<Toast>) -> Seq<ToastView> {
    ts.map_values(|t: Toast| t@)
}

/// The toasts of `ts` other than those with id `id`, in order.
pub open spec fn without_id(ts: Seq<ToastView>, id: u32) -> Seq<ToastView>
    decreases ts.len(),
{
    if ts.len() == 0 {
        ts
    } else {
        let rest = without_id(ts.drop_last(), id);
        if ts.last().id == id {
            rest
        } else {
            rest.push(ts.last())
        }
    }
}

/// The toasts on screen, oldest first.
pub struct ToastManager {
    pub toasts: VecDeque<Toast>,
}

impl ToastManager {
    /// No toasts on screen.
    pub fn new() -> (r: Self)
        ensures
            r.toasts@.len() == 0,
    {
        ToastManager { toasts: VecDeque::new() }
    }

    /// Puts a new toast after the others.
    pub fn show(&mut self, message: String, toast_type: ToastType, duration: u64)
        ensures
            final(self).toasts@.len() == old(self).toasts@.len() + 1,
            final(self).toasts@.drop_last() == old(self).toasts@,
            final(self).toasts@.last().message@ == message@,
            final(self).toasts@.last().toast_type == toast_type,
            final(self).toasts@.last().duration == duration,
    {
        let toast = Toast::new(message, toast_type, duration);
        self.toasts.push_back(toast);
        assert(self.toasts@.drop_last() =~= old(self).toasts@);
    }

    /// The toasts on screen.
    pub fn get_toasts(&self) -> (r: &VecDeque<Toast>)
        ensures
            r@ == self.toasts@,
    {
        &self.toasts
    }

    /// Takes the toast with id `id` off the screen (every one, should two
    /// share it); the others keep their order.
    pub fn dismiss(&mut self, id: u32)
        ensures
            toast_views(final(self).toasts@) == without_id(toast_views(old(self).toasts@), id),
    {
        let ghost all = toast_views(self.toasts@);
        let n = self.toasts.len();
        let mut kept: VecDeque<Toast> = VecDeque::new();
        let mut i: usize = 0;
        while i < n
            invariant
                n == all.len(),
                i <= n,
                toast_views(self.toasts@) == all.subrange(i as int, n as int),
                toast_views(kept@) == without_id(all.subrange(0, i as int), id),
            decreases n - i,
        {
            let ghost rest = self.toasts@;
            assert(toast_views(rest).len() == rest.len());
            assert(rest.len() > 0);
            let t = self.toasts.pop_front().unwrap();
            assert(t == rest[0]);
            assert(toast_views(rest)[0] == t@);
            assert(toast_views(self.toasts@) =~= toast_views(rest).drop_first());
            assert(all.subrange(0, i + 1).drop_last() =~= all.subrange(0, i as int));
            assert(all.subrange(0, i + 1).last() == t@);
            if t.id != id {
                let ghost before = kept@;
                kept.push_back(t);
                assert(toast_views(kept@) =~= toast_views(before).push(t@));
            }
            assert(toast_views(self.toasts@) =~= all.subrange(i + 1, n as int));
            i = i + 1;
        }
        assert(all.subrange(0, n as int) =~= all);
        self.toasts = kept;
    }
}

} // verus!

verus! {

/// Dismissing a toast leaves none with its id, and keeps every other toast.
pub proof fn law_dismiss_removes_only_that_id(ts: Seq<ToastView>, id: u32)
    ensures
        forall|k: int| 0 <= k < without_id(ts, id).len() ==> (#[trigger] without_id(ts, id)[k]).id != id,
        forall|k: int| 0 <= k < ts.len() && ts[k].id != id ==> without_id(ts, id).contains(#[trigger] ts[k]),
    decreases ts.len(),
{
    if ts.len() > 0 {
        let rest = ts.drop_last();
        law_dismiss_removes_only_that_id(rest, id);
        let r = without_id(rest, id);
        assert forall|k: int| 0 <= k < ts.len() && ts[k].id != id implies without_id(ts, id).contains(#[trigger] ts[k]) by {
            if k < ts.len() - 1 {
                assert(rest[k] == ts[k]);
                if ts.last().id != id {
                    let j = choose|j: int| 0 <= j < r.len() && r[j] == ts[k];
                    assert(r.push(ts.last())[j] == ts[k]);
                }
            } else {
                assert(r.push(ts.last())[r.len() as int] == ts[k]);
            }
        }
        if ts.last().id != id {
            assert forall|k: int| 0 <= k < r.push(ts.last()).len() implies (#[trigger] r.push(ts.last())[k]).id != id by {
                if k < r.len() {
                    assert(r.push(ts.last())[k] == r[k]);
                }
            }
        }
    }
}

} // verus!
