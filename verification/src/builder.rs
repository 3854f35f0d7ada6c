//! Paths into a weight store.
use crate::error::{view_result, Error, ErrorView};
use crate::store::WeightStore;
use crate::tensor::{Tensor, TensorView};
use vstd::prelude::*;

verus! {

/// The name `name` below `prefix`: the two joined by a dot, or `name` alone
/// at the root.
pub open spec fn join(prefix: Seq<char>, name: Seq<char>) -> Seq<char> {
    if prefix.len() == 0 {
        name
    } else {
        prefix + seq!['.'] + name
    }
}

/// A builder as a mathematical value: what the store holds, and the path the
/// builder stands at.
pub struct BuilderView<T> {
    pub store: Map<Seq<char>, TensorView<T>>,
    pub prefix: Seq<char>,
}

impl<T> BuilderView<T> {
    /// The full name of `name` below this builder.
    pub open spec fn path(self, name: Seq<char>) -> Seq<char> {
        join(self.prefix, name)
    }

    /// The builder one step down, at `name`.
    pub open spec fn pp(self, name: Seq<char>) -> Self {
        BuilderView { store: self.store, prefix: self.path(name) }
    }

    /// The tensor called `name` below this builder, or the error that names
    /// the full path under which the store holds nothing.
    pub open spec fn get(self, name: Seq<char>) -> Result<TensorView<T>, ErrorView> {
        if self.store.contains_key(self.path(name)) {
            Ok(self.store[self.path(name)])
        } else {
            Err(ErrorView::WeightLoad { path: self.path(name) })
        }
    }
}

/// A handle that resolves names of tensors: a weight store that it reads and
/// never changes, and the path it stands at, such as `layers.3.mlp`.
#[derive(Debug)]
pub struct Builder<'a, T> {
    store: &'a WeightStore<T>,
    prefix: String,
}

impl<'a, T> View for Builder<'a, T> {
    type V = BuilderView<T>;

    closed spec fn view(&self) -> BuilderView<T> {
        BuilderView { store: self.store@, prefix: self.prefix@ }
    }
}

impl<'a, T> Builder<'a, T> {
    /// The builder at the root of `store`.
    pub fn new(store: &'a WeightStore<T>) -> (r: Self)
        ensures
            r@ == (BuilderView { store: store@, prefix: Seq::<char>::empty() }),
    {
        Builder { store, prefix: String::new() }
    }

    /// The full name of `name` below this builder.
    pub fn path(&self, name: &str) -> (r: String)
        ensures
            r@ == self@.path(name@),
    {
        if self.prefix.as_str().is_empty() {
            String::from_str(name)
        } else {
            let mut full = self.prefix.clone();
            full.append(".");
            full.append(name);
            proof {
                reveal_strlit(".");
                assert("."@ =~= seq!['.']);
            }
            full
        }
    }

    /// The builder one step down, at `name`, on the same store.
    pub fn pp(&self, name: &str) -> (r: Builder<'a, T>)
        ensures
            r@ == self@.pp(name@),
    {
        Builder { store: self.store, prefix: self.path(name) }
    }

    /// The tensor called `name` below this builder, or the error that names
    /// the full path under which the store holds nothing.
    pub fn get(&self, name: &str) -> (r: Result<&'a Tensor<T>, Error>)
        ensures
            view_result(r) == self@.get(name@),
            r matches Ok(t) ==> t@.wf(),
    {
        let full = self.path(name);
        match self.store.get(full.as_str()) {
            Some(t) => Ok(t),
            None => Err(Error::WeightLoad { path: full }),
        }
    }
}

} // verus!
