//! The slot of the callback that receives software-keyboard text.

use vstd::prelude::*;

verus! {

/// Register `callback` as the receiver of keyboard text, replacing any
/// earlier one; `None` clears the slot.
pub fn set_text_input_callback<F: FnMut(&str)>(slot: &mut Option<F>, callback: Option<F>)
    ensures
        *final(slot) == callback,
{
    *slot = callback;
}

/// Hand `text` to the registered callback.  Returns whether one was
/// registered (and so received the text).
pub fn dispatch_text_input<F: FnMut(&str)>(slot: &mut Option<F>, text: &str) -> (handled: bool)
    requires
        (*old(slot)) matches Some(cb) ==> call_requires(cb, (text,)),
    ensures
        handled == (*old(slot) is Some),
        (*final(slot) is Some) == (*old(slot) is Some),
        (*old(slot)) matches Some(cb) ==> call_ensures(cb, (text,), ()),
{
    match slot {
        Some(cb) => {
            cb(text);
            true
        },
        None => false,
    }
}

} // verus!
