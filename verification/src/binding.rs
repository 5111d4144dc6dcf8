//! One key binding: a key combination and the action bound to it.

use vstd::prelude::*;

verus! {

/// A key combination, the action it triggers, and the entry's place in the
/// list it was loaded into.
#[derive(Debug)]
pub struct Binding {
    pub combo: String,
    pub action: String,
    pub idx: usize,
}

/// The mathematical value of a [`Binding`].
pub struct BindingView {
    pub combo: Seq<char>,
    pub action: Seq<char>,
    pub idx: nat,
}

impl View for Binding {
    type V = BindingView;

    open spec fn view(&self) -> BindingView {
        BindingView { combo: self.combo@, action: self.action@, idx: self.idx as nat }
    }
}

/// The values of a list of bindings, in order.
pub open spec fn bindings_view(bindings: Seq<Binding>) -> Seq<BindingView> {
    Seq::new(bindings.len(), |i: int| bindings[i]@)
}

impl Clone for Binding {
    fn clone(&self) -> (copy: Binding)
        ensures
            copy@ == self@,
    {
        Binding { combo: self.combo.clone(), action: self.action.clone(), idx: self.idx }
    }
}

impl Default for Binding {
    fn default() -> (binding: Binding)
        ensures
            binding@ == (BindingView { combo: Seq::empty(), action: Seq::empty(), idx: 0 }),
    {
        Binding { combo: String::new(), action: String::new(), idx: 0 }
    }
}

} // verus!
